use vcs_core::error::CognitionError;
use vcs_core::http::{Method, Request, RequestHeader, RequestUrl, Response, ResponseHeader};
use vcs_core::middleware::{HeaderMiddleware, PipelineStage, TransportPipeline};
use vcs_core::pagination::pagination;
use vcs_core::pipelines::scoped::ScopedPipelineOperation;
use vcs_core::rate_limit::{RateLimitBuilder, RateLimitHeaderProfileBuilder};
use vcs_core::registry::{ProviderId, ProviderRegistry};
use vcs_core::provider::{AuthHeaderStyle, AuthKind, Capability, CapabilitySet, Provider, ProviderDescriptor};
use vcs_core::releases::list::ReleaseListOperation;
use vcs_core::releases::operations::ReleaseCreateOperation;
use vcs_core::releases::scoped::ScopedReleaseOperation;
use vcs_core::repos::operations::RepoCreateOperation;
use vcs_core::repos::{repo, Visibility};
use vcs_core::repositories::RepositoryCoordinates;
use vcs_core::retry::{RetryBuilder, RetryPolicy, RetryStep};

fn response(status: u16, headers: Vec<(&str, &str)>) -> Response {
    Response::make(
        status,
        headers
            .into_iter()
            .map(|(name, value)| ResponseHeader::make(name, value))
            .collect(),
        String::new(),
    )
}

#[test]
fn retry_policy_keeps_at_least_one_attempt() {
    let policy = RetryPolicy::make(0, vec![503]);
    assert_eq!(policy.max_attempts(), 1);
    assert_eq!(policy.retry_status_codes(), &[503]);
}

#[test]
fn retry_policy_resends_retried_statuses_while_attempts_remain() {
    let policy = RetryPolicy::make(3, vec![429, 503]);
    let busy = response(503, vec![]);
    let fine = response(200, vec![]);

    assert!(policy.should_retry(&busy));
    assert!(!policy.should_retry(&fine));
    assert_eq!(policy.next_step(1, &busy), RetryStep::Resend);
    assert_eq!(policy.next_step(2, &busy), RetryStep::Resend);
    assert_eq!(policy.next_step(3, &busy), RetryStep::Deliver);
    assert_eq!(policy.next_step(1, &fine), RetryStep::Deliver);
}

#[test]
fn retry_transport_defaults_and_overrides() {
    let transport = RetryBuilder
        .transport("inner")
        .attempts(0)
        .on_status(418)
        .on_statuses(vec![520, 521])
        .build();
    assert_eq!(transport.policy().max_attempts(), 1);
    assert_eq!(
        transport.policy().retry_status_codes(),
        &[429, 500, 502, 503, 504, 418, 520, 521]
    );
    assert_eq!(transport.transport, "inner");
}

#[test]
fn rate_limit_reads_the_first_matching_header_ignoring_case() {
    let profile = RateLimitHeaderProfileBuilder::default()
        .remaining(vec!["X-RateLimit-Remaining".to_string()])
        .reset_at(vec!["X-RateLimit-Reset".to_string()])
        .retry_after(vec!["Retry-After".to_string()])
        .cost(vec!["X-Cost".to_string()])
        .build();
    let response = response(
        200,
        vec![
            ("x-ratelimit-remaining", "42"),
            ("X-RATELIMIT-REMAINING", "7"),
            ("x-ratelimit-reset", "1700000000"),
            ("x-cost", "lots"),
        ],
    );
    let observation = profile.observe(&response);

    assert_eq!(observation.remaining().map(|q| q.as_u64()), Some(42));
    assert_eq!(observation.reset_at().map(|r| r.as_str()), Some("1700000000"));
    assert!(observation.retry_after().is_none());
    assert!(observation.cost().is_none());
}

#[test]
fn rate_limit_transport_observes_with_its_profile() {
    let transport = RateLimitBuilder
        .transport("inner", "recorder")
        .remaining(vec!["Remaining".to_string()])
        .build();
    let observation = transport.observation(&response(200, vec![("remaining", "+5")]));
    assert_eq!(observation.remaining().map(|q| q.as_u64()), Some(5));
}

#[test]
fn header_middleware_appends_its_header() {
    let request = Request::make(Method::Get, RequestUrl::make("https://x/y"), None)
        .with_header(RequestHeader::make("A", "1"));
    let handled = HeaderMiddleware::make("B", "2").handle(request);
    let names: Vec<&str> = handled.headers().iter().map(|h| h.name()).collect();
    assert_eq!(names, vec!["A", "B"]);
}

#[test]
fn pipeline_keeps_stages_in_order() {
    let pipeline = TransportPipeline::<(), u8>::builder()
        .header("A", "1")
        .with(7u8)
        .transport("inner")
        .build();
    let stages = pipeline.stages();
    assert_eq!(stages.len(), 2);
    assert!(matches!(stages[0], PipelineStage::Header(_)));
    assert!(matches!(stages[1], PipelineStage::Custom(7)));
}

#[test]
fn release_operations_name_what_is_missing() {
    let repo = repo().owner("akira-io").name("core").build();
    assert_eq!(
        ReleaseCreateOperation::make(()).tag("v1").create().err(),
        Some(CognitionError::InvalidInput("repository is required".into()))
    );
    assert_eq!(
        ScopedReleaseOperation::make((), repo.clone()).get().err(),
        Some(CognitionError::InvalidInput("release id is required".into()))
    );
    let (_, draft) = ScopedReleaseOperation::make((), repo.clone())
        .tag("v1")
        .name("First")
        .create()
        .unwrap();
    assert_eq!(draft.tag(), "v1");
    assert_eq!(draft.name(), Some("First"));
    assert_eq!(draft.body(), None);
    assert_eq!(
        ReleaseListOperation::make(()).list().err(),
        Some(CognitionError::InvalidInput("repository is required".into()))
    );
    let (_, query) = ReleaseListOperation::make(())
        .location(repo)
        .pagination()
        .limit(20)
        .list()
        .list()
        .unwrap();
    assert_eq!(query.page().and_then(|p| p.limit()).map(|l| l.as_u16()), Some(20));
}

#[test]
fn pipeline_operations_need_an_identifier() {
    let repo = repo().owner("akira-io").name("core").build();
    assert_eq!(
        ScopedPipelineOperation::make((), repo.clone()).rerun().err(),
        Some(CognitionError::InvalidInput("pipeline id is required".into()))
    );
    let (_, pipeline) = ScopedPipelineOperation::make((), repo).id("42").cancel().unwrap();
    assert_eq!(pipeline.id().as_str(), "42");
}

#[test]
fn repository_creation_is_private_unless_told() {
    let repo = repo().owner("akira-io").name("core").build();
    let (_, draft) = RepoCreateOperation::make(()).repo(repo).create().unwrap();
    assert_eq!(draft.visibility(), &Visibility::Private);
    assert_eq!(
        RepoCreateOperation::make(()).visibility(Visibility::Public).create().err(),
        Some(CognitionError::InvalidInput("repository is required".into()))
    );
}

#[test]
fn coordinates_require_owner_then_name() {
    assert_eq!(
        RepositoryCoordinates::make().name("core").build().err(),
        Some(CognitionError::InvalidInput("owner name is required".into()))
    );
    assert_eq!(
        RepositoryCoordinates::make().owner_name("akira-io").build().err(),
        Some(CognitionError::InvalidInput("repository name is required".into()))
    );
}

#[test]
fn page_request_holds_limit_and_cursor() {
    let request = pagination().request().limit(50).cursor("abc").build();
    assert_eq!(request.limit().map(|l| l.as_u16()), Some(50));
    assert_eq!(request.cursor().map(|c| c.as_str()), Some("abc"));
}

#[derive(Clone, Copy)]
struct Named(&'static str, bool);

impl Provider for Named {
    fn descriptor(&self) -> ProviderDescriptor {
        let capabilities = if self.1 { vec![Capability::Repos] } else { vec![] };
        ProviderDescriptor::make(ProviderId::make(self.0), self.0, CapabilitySet::make(capabilities))
    }

    fn default_base_url(&self) -> &str {
        "https://example.test"
    }

    fn auth_header_style(&self, _auth_kind: AuthKind) -> AuthHeaderStyle {
        AuthHeaderStyle::NoAuthorization
    }
}

#[test]
fn registry_orders_providers_by_identifier() {
    let registry = ProviderRegistry::builder()
        .register(Named("gitlab", true))
        .unwrap()
        .register(Named("bitbucket", false))
        .unwrap()
        .register(Named("github", true))
        .unwrap()
        .build();
    let names: Vec<String> = registry
        .descriptors()
        .iter()
        .map(|d| d.display_name().to_string())
        .collect();
    assert_eq!(names, vec!["bitbucket", "github", "gitlab"]);
    assert!(registry.contains_provider(&ProviderId::make("github")));
    assert_eq!(
        registry.get_provider(&ProviderId::make("gitea")).err(),
        Some(CognitionError::ProviderNotRegistered("gitea".into()))
    );
    let supporting: Vec<&str> = registry
        .providers_supporting(Capability::Repos)
        .iter()
        .map(|p| p.0)
        .collect();
    assert_eq!(supporting, vec!["github", "gitlab"]);
}
