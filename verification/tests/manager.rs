use vcs_core::error::CognitionResult;
use vcs_core::http::{Method, Request, RequestHeader, RequestUrl, Response, ResponseHeader};
use vcs_core::issues::{Issue, IssueDraft, IssueListQuery, IssuePatch};
use vcs_core::manager::{
    ManagedClientProvider, ManagedIssueProvider, ManagedPipelineProvider, ManagedMiddlewareTransportBuilder, ManagedProvider,
    ManagedRateLimitTransportBuilder, ManagedRetryTransportBuilder, ProviderClient, TransportLayer,
    VcsManager,
};
use vcs_core::manager::send::{ComposedSend, SendAction, SendEvent};
use vcs_core::middleware::PipelineStage;
use vcs_core::pagination::PageRequest;
use vcs_core::pipelines::transport::TransportBackedPipelines;
use vcs_core::pipelines::{Pipeline, PipelineId, PipelineListQuery};
use vcs_core::provider::{
    AuthCredential, AuthHeaderStyle, AuthKind, Capability, CapabilitySet, Provider, ProviderDescriptor,
};
use vcs_core::registry::ProviderId;
use vcs_core::repos::resources::{BranchDraft, RepositoryDraft, RepositoryPatch};
use vcs_core::repos::transport::TransportBackedRepos;
use vcs_core::repos::{repo, Repo};
use vcs_core::repositories::{RepositoryListQuery, RepositorySearchQuery};
use vcs_core::runtime::{ProviderRuntimeBuilder, RuntimeProviderConfigurationBuilder};

#[derive(Clone, Debug, PartialEq)]
struct Forge;

fn get(url: String) -> Request {
    Request::make(Method::Get, RequestUrl::make(&url), None)
}

fn repo_path(repo: &Repo) -> String {
    format!("{}/{}", repo.owner().as_str(), repo.name().as_str())
}

impl Provider for Forge {
    fn descriptor(&self) -> ProviderDescriptor {
        ProviderDescriptor::make(ProviderId::make("forge"), "Forge", CapabilitySet::make(vec![Capability::Repos]))
    }

    fn default_base_url(&self) -> &str {
        "https://forge.test"
    }

    fn auth_header_style(&self, _auth_kind: AuthKind) -> AuthHeaderStyle {
        AuthHeaderStyle::AuthorizationBearer
    }
}

impl ManagedProvider for Forge {
    fn repo_url(&self, repo: &Repo) -> RequestUrl {
        RequestUrl::make(&format!("/repos/{}", repo_path(repo)))
    }

    fn repo_branches_url(&self, repo: &Repo, _page: Option<&PageRequest>) -> RequestUrl {
        RequestUrl::make(&format!("/repos/{}/branches", repo_path(repo)))
    }

    fn repo_commits_url(&self, repo: &Repo, _page: Option<&PageRequest>) -> RequestUrl {
        RequestUrl::make(&format!("/repos/{}/commits", repo_path(repo)))
    }

    fn repo_list_url(&self, _query: &RepositoryListQuery) -> RequestUrl {
        RequestUrl::make("/repos")
    }

    fn repo_search_url(&self, _query: &RepositorySearchQuery) -> RequestUrl {
        RequestUrl::make("/search")
    }

    fn repo_create_request(&self, draft: &RepositoryDraft) -> Request {
        get(format!("/create/{}", repo_path(draft.repo())))
    }

    fn repo_update_request(&self, _patch: &RepositoryPatch) -> Request {
        get("/update".to_string())
    }

    fn repo_delete_request(&self, repo: &Repo) -> Request {
        get(format!("/delete/{}", repo_path(repo)))
    }

    fn repo_branch_create_request(&self, _draft: &BranchDraft) -> CognitionResult<Request> {
        Ok(get("/branch".to_string()))
    }

    fn repo_branch_delete_request(&self, _repo: &Repo, name: &str) -> CognitionResult<Request> {
        Ok(get(format!("/branch/{name}")))
    }
}

impl ManagedIssueProvider for Forge {
    fn issue_url(&self, issue: &Issue) -> RequestUrl {
        RequestUrl::make(&format!("/repos/{}/issues/{}", repo_path(issue.repo()), issue.id().as_str()))
    }

    fn issue_list_url(&self, query: &IssueListQuery) -> RequestUrl {
        RequestUrl::make(&format!("/repos/{}/issues", repo_path(query.repo())))
    }

    fn issue_create_request(&self, _draft: &IssueDraft) -> Request {
        get("/issues/new".to_string())
    }

    fn issue_update_request(&self, patch: &IssuePatch) -> Request {
        get(format!("/issues/{}/update?closed={:?}", patch.issue().id().as_str(), patch.closed()))
    }
}

#[derive(Clone, Debug, PartialEq)]
struct ForgeClient {
    transport: String,
    credential: Option<String>,
}

impl Provider for ForgeClient {
    fn descriptor(&self) -> ProviderDescriptor {
        Forge.descriptor()
    }

    fn default_base_url(&self) -> &str {
        "https://forge.test"
    }

    fn auth_header_style(&self, _auth_kind: AuthKind) -> AuthHeaderStyle {
        AuthHeaderStyle::AuthorizationBearer
    }
}

impl ProviderClient for ForgeClient {
    type Credential = String;

    fn auth(self, credential: String) -> Self {
        ForgeClient { credential: Some(credential), ..self }
    }
}

impl ManagedClientProvider for Forge {
    type Client = ForgeClient;

    fn client<T>(&self, _transport: T) -> ForgeClient {
        ForgeClient { transport: format!("{} bytes", std::mem::size_of::<T>()), credential: None }
    }
}

fn manager() -> VcsManager<Forge> {
    VcsManager { driver: Forge }
}

#[test]
fn manager_retry_transport_keeps_at_least_one_attempt_and_adds_statuses() {
    let builder = ManagedRetryTransportBuilder::make(manager(), "wire")
        .attempts(0)
        .on_status(418)
        .on_statuses(vec![409]);
    let transport = builder.retry_transport();
    assert_eq!(transport.policy().max_attempts(), 1);
    assert_eq!(transport.policy().retry_status_codes(), &[429, 500, 502, 503, 504, 418, 409]);
    assert_eq!(transport.transport, "wire");
}

#[test]
fn manager_retry_builder_gives_an_authenticated_client_over_a_retrying_transport() {
    let client = ManagedRetryTransportBuilder::make(manager(), "wire").auth("token".to_string());
    assert!(client.transport.ends_with("bytes"));
    assert_eq!(client.credential.as_deref(), Some("token"));
}

#[test]
fn manager_rate_limit_transport_observes_configured_headers() {
    let builder = ManagedRateLimitTransportBuilder::make(manager(), "wire", "first-recorder")
        .remaining(vec!["X-Remaining".to_string()])
        .cost(vec!["X-Cost".to_string()])
        .recorder("second-recorder");
    let transport = builder.rate_limit_transport();
    assert_eq!(transport.recorder, "second-recorder");
    let response = Response::make(
        200,
        vec![ResponseHeader::make("x-remaining", "7"), ResponseHeader::make("x-cost", "two")],
        String::new(),
    );
    let observation = transport.observation(&response);
    assert_eq!(observation.remaining().map(|q| q.as_u64()), Some(7));
    assert!(observation.cost().is_none());
    assert!(observation.reset_at().is_none());
}

#[test]
fn manager_rate_limit_builder_builds_a_client() {
    let client = ManagedRateLimitTransportBuilder::make(manager(), "wire", ()).build();
    assert!(client.transport.ends_with("bytes"));
    assert_eq!(client.credential, None);
}

#[test]
fn middleware_layers_are_off_until_switched_on() {
    let builder: ManagedMiddlewareTransportBuilder<Forge, _, &str, (), &str> =
        ManagedMiddlewareTransportBuilder::make(manager(), "wire", ());
    let layers = builder.layers();
    assert!(layers.order.is_empty());
    assert!(layers.rate_limit.is_none());
    assert!(layers.retry.is_none());
    assert!(layers.telemetry.is_none());
    assert_eq!(layers.pipeline.stages().len(), 0);
    assert_eq!(layers.pipeline.transport, "wire");
}

#[test]
fn middleware_layers_follow_the_configuration() {
    let builder: ManagedMiddlewareTransportBuilder<Forge, _, &str, &str, &str> =
        ManagedMiddlewareTransportBuilder::make(manager(), "wire", "recorder");
    let layers = builder
        .header("X-Trace", "on")
        .with("custom")
        .retry()
        .attempts(0)
        .on_status(409)
        .rate_limit()
        .remaining(vec!["X-Remaining".to_string()])
        .telemetry("sink")
        .layers();
    assert_eq!(layers.order, vec![TransportLayer::RateLimit, TransportLayer::Retry, TransportLayer::Telemetry]);
    let policy = layers.retry.expect("retry layer");
    assert_eq!(policy.max_attempts(), 1);
    assert_eq!(policy.retry_status_codes(), &[429, 500, 502, 503, 504, 409]);
    let (profile, recorder) = layers.rate_limit.expect("rate limit layer");
    assert_eq!(recorder, "recorder");
    let response = Response::make(200, vec![ResponseHeader::make("X-REMAINING", "3")], String::new());
    assert_eq!(profile.observe(&response).remaining().map(|q| q.as_u64()), Some(3));
    assert_eq!(layers.telemetry, Some("sink"));
    let stages = layers.pipeline.stages();
    assert_eq!(stages.len(), 2);
    match &stages[0] {
        PipelineStage::Header(h) => {
            let request = h.handle(Request::make(Method::Get, RequestUrl::make("/"), None));
            assert_eq!(request.headers()[0].name(), "X-Trace");
            assert_eq!(request.headers()[0].value(), "on");
        }
        PipelineStage::Custom(_) => panic!("the header stage comes first"),
    }
    assert!(matches!(stages[1], PipelineStage::Custom("custom")));
}

#[test]
fn managed_repo_reaches_its_issues() {
    let issues = manager().repo().owner("octo").name("tools").issues();
    assert_eq!(issues.url().value(), "/repos/octo/tools/issues");
    let issue = manager().repo().owner("octo").name("tools").issue("12").build();
    assert_eq!(issue.url().value(), "/repos/octo/tools/issues/12");
    assert!(issue.delete().is_err());
}

#[test]
fn manager_transport_asks_the_driver_for_a_client() {
    let client = manager().transport(5u8);
    assert_eq!(client.transport, "1 bytes");
}

#[test]
fn runtime_configuration_defaults_and_overrides() {
    let config: RuntimeProviderConfigurationBuilder<()> = RuntimeProviderConfigurationBuilder::default();
    assert_eq!(config.base_url, "https://api.example.test");
    let runtime = config.base_url("https://git.example.test").transport("wire").build();
    assert_eq!(runtime.provider.default_base_url(), "https://git.example.test");
    assert_eq!(runtime.provider.auth_header_style(AuthKind::Anonymous), AuthHeaderStyle::NoAuthorization);
    assert_eq!(runtime.provider.auth_header_style(AuthKind::Jwt), AuthHeaderStyle::AuthorizationBearer);
    assert_eq!(runtime.transport, "wire");
    let descriptor = runtime.provider.descriptor();
    assert_eq!(descriptor.id().as_str(), "runtime");
    assert_eq!(descriptor.display_name(), "Runtime");
    assert!(descriptor.capabilities().supports(&Capability::Repos));
    assert!(!descriptor.capabilities().supports(&Capability::Repositories));
}

#[test]
fn runtime_with_provider_keeps_the_provider_and_telemetry() {
    let runtime = ProviderRuntimeBuilder
        .with_provider::<Forge, &str>(Forge)
        .telemetry("sink")
        .transport("wire")
        .build();
    assert_eq!(runtime.provider, Forge);
    assert_eq!(runtime.telemetry_sink, Some("sink"));
    assert_eq!(runtime.transport, "wire");
}

#[test]
fn closing_an_issue_asks_the_driver_for_a_closing_patch() {
    let request = manager().repo().owner("octo").name("tools").issue("7").close();
    assert_eq!(request.url().value(), "/issues/7/update?closed=Some(true)");
    let reopen = manager().repo().owner("octo").name("tools").issue("7").open().update();
    assert_eq!(reopen.url().value(), "/issues/7/update?closed=Some(false)");
}

struct Driven {
    handles: Vec<usize>,
    sent: Vec<Request>,
    records: usize,
    delivered: Response,
}

/// Drives one send: the caller's middlewares pass the request on, the transport
/// answers every attempt with `status` and the attempt's number as the body.
fn drive_send(stages: &[PipelineStage<&str>], mut send: ComposedSend, status: u16) -> Driven {
    let mut handles = Vec::new();
    let mut sent = Vec::new();
    let mut records = 0;
    let mut action = send.next(stages, SendEvent::Begin);
    loop {
        let event = match action {
            SendAction::Handle(index, request) => {
                handles.push(index);
                SendEvent::Handled(Ok(request))
            }
            SendAction::Send(request) => {
                sent.push(request);
                SendEvent::Sent(Ok(Response::make(status, vec![], format!("{}", sent.len()))))
            }
            SendAction::Record(_) => {
                records += 1;
                SendEvent::Recorded
            }
            SendAction::Deliver(delivered) => return Driven { handles, sent, records, delivered },
            SendAction::Fail(_) => panic!("no stage fails here"),
            SendAction::Stay => panic!("the machine asked for nothing"),
        };
        action = send.next(stages, event);
    }
}

#[test]
fn composed_transport_sends_every_retried_attempt_and_observes_each() {
    let builder: ManagedMiddlewareTransportBuilder<Forge, _, &str, &str, &str> =
        ManagedMiddlewareTransportBuilder::make(manager(), "wire", "recorder");
    let layers = builder.retry().attempts(4).rate_limit().layers();
    let send = layers.start(get("/repos".to_string()));
    let driven = drive_send(layers.pipeline.stages(), send, 503);
    assert_eq!(driven.sent.len(), 4);
    assert_eq!(driven.records, 4);
    assert_eq!(driven.delivered.status().code(), 503);
    assert_eq!(driven.delivered.body(), "4");
}

#[test]
fn composed_transport_delivers_a_response_that_is_not_retried_at_once() {
    let builder: ManagedMiddlewareTransportBuilder<Forge, _, &str, &str, &str> =
        ManagedMiddlewareTransportBuilder::make(manager(), "wire", "recorder");
    let layers = builder.retry().attempts(4).layers();
    let send = ComposedSend::make(get("/repos".to_string()), None, layers.retry);
    let driven = drive_send(layers.pipeline.stages(), send, 200);
    assert_eq!(driven.sent.len(), 1);
    assert_eq!(driven.records, 0);
    assert_eq!(driven.delivered.body(), "1");
}

#[test]
fn composed_transport_runs_each_middleware_once_in_order_then_sends_once() {
    let builder: ManagedMiddlewareTransportBuilder<Forge, _, &str, &str, &str> =
        ManagedMiddlewareTransportBuilder::make(manager(), "wire", "recorder");
    let layers = builder.with("first").header("X-Trace", "on").with("second").layers();
    let send = ComposedSend::make(get("/repos".to_string()), None, None);
    let driven = drive_send(layers.pipeline.stages(), send, 503);
    assert_eq!(driven.handles, vec![0, 2]);
    assert_eq!(driven.sent.len(), 1);
    assert_eq!(driven.sent[0].headers().len(), 1);
    assert_eq!(driven.sent[0].headers()[0].name(), "X-Trace");
    assert_eq!(driven.records, 0);
    assert_eq!(driven.delivered.body(), "1");
}

#[test]
fn composed_transport_stops_at_the_first_failing_middleware() {
    let builder: ManagedMiddlewareTransportBuilder<Forge, _, &str, &str, &str> =
        ManagedMiddlewareTransportBuilder::make(manager(), "wire", "recorder");
    let layers = builder.with("first").with("second").retry().layers();
    let stages = layers.pipeline.stages();
    let mut send = ComposedSend::make(get("/repos".to_string()), None, layers.retry);
    let action = send.next(stages, SendEvent::Begin);
    assert!(matches!(action, SendAction::Handle(0, _)));
    let failure = vcs_core::error::unsupported_operation("refused");
    let action = send.next(stages, SendEvent::Handled(Err(failure)));
    assert!(matches!(action, SendAction::Fail(_)));
    assert!(matches!(send.next(stages, SendEvent::Begin), SendAction::Stay));
}

#[test]
fn repos_transport_requests_use_the_driver_and_add_the_headers() {
    let repos = TransportBackedRepos::make(Forge, "wire", "mapper")
        .with_headers(vec![RequestHeader::make("X-Api", "2")]);
    let tools = repo().owner("octo").name("tools").build();
    let get_request = repos.get_request(&tools);
    assert_eq!(get_request.method(), Method::Get);
    assert_eq!(get_request.url().value(), "/repos/octo/tools");
    assert_eq!(get_request.headers().len(), 1);
    assert_eq!(get_request.headers()[0].name(), "X-Api");
    assert_eq!(get_request.headers()[0].value(), "2");
    assert_eq!(repos.branches_request(&tools).url().value(), "/repos/octo/tools/branches");
    assert_eq!(repos.commits_request(&tools).url().value(), "/repos/octo/tools/commits");
    assert_eq!(repos.list_request(&RepositoryListQuery::default()).url().value(), "/repos");
    let delete = repos.delete_request(&tools);
    assert_eq!(delete.url().value(), "/delete/octo/tools");
    assert_eq!(delete.headers()[0].name(), "X-Api");
    let delete_branch = repos.delete_branch_request(&tools, "dev").expect("the driver builds it");
    assert_eq!(delete_branch.url().value(), "/branch/dev");
    assert_eq!(delete_branch.headers().len(), 1);
}

#[test]
fn runtime_requests_go_under_the_base_url_with_the_provider_header() {
    let runtime = ProviderRuntimeBuilder.with_provider::<Forge, &str>(Forge).transport("wire").build();
    let credential = AuthCredential::make(AuthKind::PersonalAccessToken, "secret");
    let request = runtime.request().get("/user").auth(&credential).header("Accept", "json").build();
    assert_eq!(request.method(), Method::Get);
    assert_eq!(request.url().value(), "https://forge.test/user");
    assert_eq!(request.headers().len(), 2);
    assert_eq!(request.headers()[0].name(), "Authorization");
    assert_eq!(request.headers()[0].value(), "Bearer secret");
    assert_eq!(request.headers()[1].name(), "Accept");
    assert_eq!(request.headers()[1].value(), "json");
    let post = runtime.request().post("repos").build();
    assert_eq!(post.method(), Method::Post);
    assert_eq!(post.url().value(), "https://forge.test/repos");
    assert!(post.headers().is_empty());
}

#[test]
fn runtime_requests_of_a_configured_provider_carry_no_anonymous_header() {
    let config: RuntimeProviderConfigurationBuilder<()> = RuntimeProviderConfigurationBuilder::default();
    let request = config
        .base_url("https://git.example.test/")
        .transport("wire")
        .request()
        .get("/user")
        .auth(&AuthCredential::make(AuthKind::Anonymous, "unused"))
        .build();
    assert_eq!(request.url().value(), "https://git.example.test/user");
    assert!(request.headers().is_empty());
}

impl ManagedPipelineProvider for Forge {
    fn pipeline_url(&self, pipeline: &Pipeline) -> RequestUrl {
        RequestUrl::make(&format!("/repos/{}/runs/{}", repo_path(pipeline.repo()), pipeline.id().as_str()))
    }

    fn pipeline_list_url(&self, _query: &PipelineListQuery) -> RequestUrl {
        RequestUrl::make("/runs")
    }

    fn pipeline_rerun_request(&self, pipeline: &Pipeline) -> CognitionResult<Request> {
        Ok(Request::make(
            Method::Post,
            RequestUrl::make(&format!("/runs/{}/rerun", pipeline.id().as_str())),
            None,
        ))
    }

    fn pipeline_cancel_request(&self, _pipeline: &Pipeline) -> CognitionResult<Request> {
        Err(vcs_core::error::unsupported_operation("pipeline cancel"))
    }
}

#[test]
fn pipelines_transport_requests_use_the_driver_and_pass_its_errors_on() {
    let pipelines = TransportBackedPipelines::make(Forge, "wire", "mapper")
        .with_headers(vec![RequestHeader::make("X-Api", "2")]);
    let tools = repo().owner("octo").name("tools").build();
    let (pipeline, request) = pipelines.get_request(tools, PipelineId::make("7"));
    assert_eq!(pipeline.id().as_str(), "7");
    assert_eq!(request.url().value(), "/repos/octo/tools/runs/7");
    assert_eq!(request.headers()[0].name(), "X-Api");
    let rerun = pipelines.rerun_request(&pipeline).expect("the driver builds it");
    assert_eq!(rerun.method(), Method::Post);
    assert_eq!(rerun.url().value(), "/runs/7/rerun");
    assert_eq!(rerun.headers().len(), 1);
    assert_eq!(
        pipelines.cancel_request(&pipeline),
        Err(vcs_core::error::unsupported_operation("pipeline cancel"))
    );
}

impl vcs_core::organizations::ManagedOrganizationProvider for Forge {
    fn organization_list_url(&self, page: Option<&PageRequest>) -> RequestUrl {
        match page {
            Some(_) => RequestUrl::make("/user/orgs?page"),
            None => RequestUrl::make("/user/orgs"),
        }
    }
}

#[test]
fn organizations_transport_lists_the_first_page_with_the_headers() {
    let organizations = vcs_core::organizations::TransportBackedOrganizations::make(Forge, "wire", "mapper")
        .with_headers(vec![RequestHeader::make("X-Api", "2"), RequestHeader::make("X-Trace", "on")]);
    let request = organizations.list_request();
    assert_eq!(request.method(), Method::Get);
    assert_eq!(request.url().value(), "/user/orgs");
    assert_eq!(request.headers().len(), 2);
    assert_eq!(request.headers()[1].name(), "X-Trace");
}
