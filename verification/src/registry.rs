//! The registry of providers: each registered once under the identifier its
//! descriptor gives, and found again by it.
use vstd::prelude::*;

use crate::error::{CognitionError, ErrorView, VcsResult};
use crate::keyed::{
    has_key, key_index, key_position, keyed_map, keys_sorted, lemma_keyed_at, lemma_keyed_insert,
    lemma_position_after,
};
use crate::provider::{Capability, Provider, ProviderDescriptor};
use crate::text::{chars_of, eq_chars, lit};

verus! {

broadcast use vstd::seq::group_seq_axioms;

/// The identifier of a provider, such as `github`.
#[derive(Debug, PartialEq, Eq)]
pub struct ProviderId(String);

impl View for ProviderId {
    type V = Seq<char>;

    closed spec fn view(&self) -> Seq<char> {
        self.0@
    }
}

impl Clone for ProviderId {
    fn clone(&self) -> (r: Self)
        ensures
            r@ == self@,
    {
        ProviderId(self.0.clone())
    }
}

impl ProviderId {
    pub fn make(value: &str) -> (r: Self)
        ensures
            r@ == value@,
    {
        ProviderId(lit(value))
    }

    pub fn as_str(&self) -> (r: &str)
        ensures
            r@ == self@,
    {
        self.0.as_str()
    }
}

pub open spec fn registry_view<P>(v: Seq<(String, P)>) -> Seq<(Seq<char>, P)> {
    v.map_values(|e: (String, P)| (e.0@, e.1))
}

/// The providers registered so far, in the order of their identifiers.
pub struct ProviderRegistryBuilder<P> {
    providers: Vec<(String, P)>,
}

impl<P> View for ProviderRegistryBuilder<P> {
    type V = Seq<(Seq<char>, P)>;

    closed spec fn view(&self) -> Seq<(Seq<char>, P)> {
        registry_view(self.providers@)
    }
}

/// The registered providers, in the order of their identifiers; each identifier once.
pub struct ProviderRegistry<P> {
    providers: Vec<(String, P)>,
}

impl<P> View for ProviderRegistry<P> {
    type V = Seq<(Seq<char>, P)>;

    closed spec fn view(&self) -> Seq<(Seq<char>, P)> {
        registry_view(self.providers@)
    }
}

impl<P> ProviderRegistryBuilder<P> {
    #[verifier::type_invariant]
    spec fn sorted(self) -> bool {
        keys_sorted(registry_view(self.providers@))
    }
}

impl<P> ProviderRegistry<P> {
    #[verifier::type_invariant]
    spec fn sorted(self) -> bool {
        keys_sorted(registry_view(self.providers@))
    }
}

/// For each descriptor, whether it offers `capability`.
pub open spec fn supports_each(ds: Seq<ProviderDescriptor>, capability: Capability) -> Seq<bool> {
    ds.map_values(|d: ProviderDescriptor| d@.capabilities.contains(capability))
}

/// The providers whose flag is set, in order.
pub open spec fn selected<P>(es: Seq<(Seq<char>, P)>, keep: Seq<bool>) -> Seq<P>
    decreases es.len(),
{
    if es.len() == 0 || keep.len() != es.len() {
        seq![]
    } else {
        let prev = selected(es.drop_last(), keep.drop_last());
        if keep.last() {
            prev.push(es.last().1)
        } else {
            prev
        }
    }
}

impl<P: Provider> ProviderRegistry<P> {
    /// A builder with no provider yet.
    pub fn builder() -> (r: ProviderRegistryBuilder<P>)
        ensures
            r@.len() == 0,
    {
        let r = ProviderRegistryBuilder { providers: Vec::new() };
        assert(registry_view(r.providers@) =~= Seq::<(Seq<char>, P)>::empty());
        r
    }

    /// Whether a provider is registered under `id`.
    pub fn contains_provider(&self, id: &ProviderId) -> (r: bool)
        ensures
            r == has_key(self@, id@),
    {
        self.index_of(id).is_some()
    }

    fn index_of(&self, id: &ProviderId) -> (r: Option<usize>)
        ensures
            match r {
                Some(i) => i < self@.len() && self@[i as int].0 == id@,
                None => !has_key(self@, id@),
            },
    {
        let key = chars_of(id.as_str());
        let mut i: usize = 0;
        while i < self.providers.len()
            invariant
                key@ == id@,
                i <= self@.len(),
                self@.len() == self.providers@.len(),
                forall|j: int| 0 <= j < i ==> self@[j].0 != id@,
            decreases self@.len() - i,
        {
            let here = chars_of(self.providers[i].0.as_str());
            assert(self@[i as int].0 == self.providers@[i as int].0@);
            if eq_chars(here.as_slice(), key.as_slice()) {
                return Some(i);
            }
            i = i + 1;
        }
        None
    }

    /// The provider registered under `id`, or the error that none is.
    pub fn get_provider(&self, id: &ProviderId) -> (r: VcsResult<&P>)
        ensures
            has_key(self@, id@) ==> (r matches Ok(p) && *p == keyed_map(self@)[id@]),
            !has_key(self@, id@) ==> (r matches Err(e) && e@ == ErrorView::ProviderNotRegistered(
                id@,
            )),
    {
        proof {
            use_type_invariant(self);
        }
        match self.index_of(id) {
            Some(i) => {
                proof {
                    lemma_keyed_at(self@, i as int);
                }
                Ok(&self.providers[i].1)
            },
            None => Err(CognitionError::ProviderNotRegistered(lit(id.as_str()))),
        }
    }

    /// The descriptor of each provider, in order, as each gives it now.
    pub fn descriptors(&self) -> (r: Vec<ProviderDescriptor>)
        ensures
            r@.len() == self@.len(),
            forall|i: int|
                0 <= i < self@.len() ==> call_ensures(P::descriptor, (&self@[i].1,), #[trigger] r@[i]),
    {
        let mut out: Vec<ProviderDescriptor> = Vec::new();
        let mut i: usize = 0;
        while i < self.providers.len()
            invariant
                i <= self@.len(),
                self@.len() == self.providers@.len(),
                out@.len() == i,
                forall|j: int| 0 <= j < i ==> call_ensures(P::descriptor, (&self@[j].1,), #[trigger] out@[j]),
            decreases self@.len() - i,
        {
            let d = self.providers[i].1.descriptor();
            assert(self@[i as int].1 == self.providers@[i as int].1);
            out.push(d);
            i = i + 1;
        }
        out
    }

    /// The providers whose flag in `keep` is set, in order.
    pub fn select(&self, keep: &Vec<bool>) -> (r: Vec<&P>)
        requires
            keep@.len() == self@.len(),
        ensures
            r@.map_values(|p: &P| *p) == selected(self@, keep@),
    {
        let mut out: Vec<&P> = Vec::new();
        let mut i: usize = 0;
        assert(self@.take(0) =~= Seq::<(Seq<char>, P)>::empty());
        assert(keep@.take(0) =~= Seq::<bool>::empty());
        while i < self.providers.len()
            invariant
                i <= self@.len(),
                self@.len() == self.providers@.len(),
                keep@.len() == self@.len(),
                out@.map_values(|p: &P| *p) == selected(self@.take(i as int), keep@.take(i as int)),
            decreases self@.len() - i,
        {
            let p = &self.providers[i].1;
            proof {
                assert(self@.take(i + 1).drop_last() =~= self@.take(i as int));
                assert(keep@.take(i + 1).drop_last() =~= keep@.take(i as int));
                assert(self@.take(i + 1).last().1 == *p);
                assert(keep@.take(i + 1).last() == keep@[i as int]);
            }
            if keep[i] {
                proof {
                    assert(out@.push(p).map_values(|p: &P| *p) =~= out@.map_values(|p: &P| *p).push(*p));
                }
                out.push(p);
            }
            i = i + 1;
        }
        assert(self@.take(i as int) =~= self@);
        assert(keep@.take(i as int) =~= keep@);
        out
    }

    /// The providers whose descriptor, as each gives it now, offers `capability`,
    /// in order.
    pub fn providers_supporting(&self, capability: Capability) -> (r: Vec<&P>)
        ensures
            exists|ds: Seq<ProviderDescriptor>|
                {
                    &&& ds.len() == self@.len()
                    &&& forall|i: int|
                        0 <= i < self@.len() ==> call_ensures(P::descriptor, (&self@[i].1,), #[trigger] ds[i])
                    &&& r@.map_values(|p: &P| *p) == selected(self@, supports_each(ds, capability))
                },
    {
        let mut keep: Vec<bool> = Vec::new();
        let ghost mut ds: Seq<ProviderDescriptor> = Seq::empty();
        let mut i: usize = 0;
        while i < self.providers.len()
            invariant
                i <= self@.len(),
                self@.len() == self.providers@.len(),
                keep@.len() == i,
                ds.len() == i,
                forall|j: int| 0 <= j < i ==> call_ensures(P::descriptor, (&self@[j].1,), #[trigger] ds[j]),
                keep@ =~= supports_each(ds, capability),
            decreases self@.len() - i,
        {
            let d = self.providers[i].1.descriptor();
            assert(self@[i as int].1 == self.providers@[i as int].1);
            let b = d.capabilities().supports(&capability);
            keep.push(b);
            proof {
                ds = ds.push(d);
            }
            i = i + 1;
        }
        self.select(&keep)
    }
}

impl<P: Provider> ProviderRegistryBuilder<P> {
    /// Registers `provider` under `id`; an identifier already registered is refused.
    pub fn register_as(self, id: &ProviderId, provider: P) -> (r: VcsResult<Self>)
        ensures
            has_key(self@, id@) ==> (r matches Err(e) && e@ == ErrorView::ProviderAlreadyRegistered(
                id@,
            )),
            !has_key(self@, id@) ==> (r matches Ok(b) && keys_sorted(b@) && keyed_map(b@)
                == keyed_map(self@).insert(id@, provider) && b@.len() == self@.len() + 1),
    {
        proof {
            use_type_invariant(&self);
        }
        let key = chars_of(id.as_str());
        let mut providers = self.providers;
        let ghost es = registry_view(providers@);
        let pos = key_position(&providers, key.as_slice());
        if pos < providers.len() {
            let here = chars_of(providers[pos].0.as_str());
            if eq_chars(here.as_slice(), key.as_slice()) {
                proof {
                    assert(es[pos as int].0 == key@);
                }
                return Err(CognitionError::ProviderAlreadyRegistered(lit(id.as_str())));
            }
        }
        proof {
            assert forall|j: int| 0 <= j < pos implies crate::text::chars_lt(#[trigger] es[j].0, key@) by {
                assert(es[j].0 == providers@[j].0@);
            }
            if pos < es.len() {
                assert(es[pos as int].0 == providers@[pos as int].0@);
            }
            lemma_position_after(es, pos as int, key@);
            lemma_keyed_insert(es, pos as int, key@, provider);
        }
        let entry = (lit(id.as_str()), provider);
        providers.insert(pos, entry);
        proof {
            assert(registry_view(providers@) =~= es.insert(pos as int, (key@, entry.1)));
        }
        Ok(ProviderRegistryBuilder { providers })
    }

    /// Registers `provider` under the identifier of its descriptor; an identifier
    /// already registered is refused.
    pub fn register(self, provider: P) -> (r: VcsResult<Self>)
        ensures
            exists|d: ProviderDescriptor|
                {
                    let id = d@.id;
                    &&& #[trigger] call_ensures(P::descriptor, (&provider,), d)
                    &&& has_key(self@, id) ==> (r matches Err(e) && e@
                        == ErrorView::ProviderAlreadyRegistered(id))
                    &&& !has_key(self@, id) ==> (r matches Ok(b) && keys_sorted(b@) && keyed_map(b@)
                        == keyed_map(self@).insert(id, provider) && b@.len() == self@.len() + 1)
                },
    {
        let descriptor = provider.descriptor();
        let r = self.register_as(descriptor.id(), provider);
        assert({
            let id = descriptor@.id;
            &&& call_ensures(P::descriptor, (&provider,), descriptor)
            &&& has_key(self@, id) ==> (r matches Err(e) && e@
                == ErrorView::ProviderAlreadyRegistered(id))
            &&& !has_key(self@, id) ==> (r matches Ok(b) && keys_sorted(b@) && keyed_map(b@)
                == keyed_map(self@).insert(id, provider) && b@.len() == self@.len() + 1)
        });
        r
    }

    /// The registry of the providers registered.
    pub fn build(self) -> (r: ProviderRegistry<P>)
        ensures
            r@ == self@,
            keys_sorted(r@),
    {
        proof {
            use_type_invariant(&self);
        }
        ProviderRegistry { providers: self.providers }
    }
}

/// A provider registered under `id` is found under `id`, and registering `id` once
/// more is refused: once `register` or `register_as` has added `p` under `id`, the
/// registry has the identifier and gives `p` for it.
pub proof fn law_registered_provider_is_found<P>(
    before: Seq<(Seq<char>, P)>,
    after: Seq<(Seq<char>, P)>,
    id: Seq<char>,
    p: P,
)
    requires
        keyed_map(after) == keyed_map(before).insert(id, p),
    ensures
        has_key(after, id),
        keyed_map(after)[id] == p,
{
    assert(keyed_map(after).contains_key(id));
}

/// Each identifier is registered once: in a registry (kept in the order of its
/// identifiers) no two entries share one.
pub proof fn law_identifiers_are_distinct<P>(es: Seq<(Seq<char>, P)>, i: int, j: int)
    requires
        keys_sorted(es),
        0 <= i < es.len(),
        0 <= j < es.len(),
        i != j,
    ensures
        es[i].0 != es[j].0,
{
    crate::keyed::lemma_sorted_distinct(es, i, j);
}

} // verus!
