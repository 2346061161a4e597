use llmpulse_cli::cli::{
    ApiArgs, Command, DateArgs, DimensionListArgs, DimensionsCommand, FilterArgs, GlobalArgs, HttpMethod, MetricArgs,
    MetricsCommand, RecommendationsCommand, SearchConsoleArgs, SearchConsoleCommand, WebhooksCommand,
};
use llmpulse_cli::commands::{plan_request, Delivery, RequestPlan};
use llmpulse_cli::json::{Json, JsonNumber};
use llmpulse_cli::output::OutputFormat;

fn global() -> GlobalArgs {
    GlobalArgs {
        api_key: None,
        base_url: None,
        project_id: None,
        output: OutputFormat::Json,
        page: None,
        per_page: None,
        all: false,
        verbose: false,
    }
}

fn dates(range: Option<u32>) -> DateArgs {
    DateArgs { range, from: None, to: None }
}

fn filters(range: Option<u32>) -> FilterArgs {
    FilterArgs { model: None, collection_id: None, country_code: None, language_code: None, prompt: None, dates: dates(range) }
}

fn plan(command: &Command, g: &GlobalArgs, project: Option<u64>) -> RequestPlan {
    plan_request(command, g, project).unwrap().unwrap()
}

fn pairs(plan: &RequestPlan) -> Vec<(&str, &str)> {
    plan.query.iter().map(|(k, v)| (k.as_str(), v.as_str())).collect()
}

fn object(members: Vec<(&str, Json)>) -> Json {
    Json::Object(members.into_iter().map(|(k, v)| (k.to_string(), v)).collect())
}

#[test]
fn metrics_summary_for_the_default_project() {
    let command = Command::Metrics {
        command: MetricsCommand::Summary(MetricArgs {
            filters: filters(Some(28)),
            metrics: vec![],
            granularity: None,
            competitors: vec![],
            include_project: false,
            group_by: None,
        }),
    };
    let request = plan(&command, &global(), Some(123));
    assert_eq!(request.method, HttpMethod::Get);
    assert_eq!(request.path, "/metrics/summary");
    assert_eq!(pairs(&request), vec![("project_id", "123"), ("range", "28")]);
    assert_eq!(request.delivery, Delivery::Single);
}

#[test]
fn every_citation_is_fetched_page_by_page() {
    let command = Command::Dimensions {
        command: DimensionsCommand::Citations(DimensionListArgs { filters: filters(None), competitors: vec![], include_project_brand: false }),
    };
    let mut g = global();
    g.all = true;
    g.output = OutputFormat::Csv;
    let request = plan(&command, &g, Some(1));
    assert_eq!(request.path, "/dimensions/citations");
    assert_eq!(request.delivery, Delivery::FetchAll);
    assert_eq!(pairs(&request), vec![("project_id", "1")]);
}

#[test]
fn search_console_queries_page_through_results() {
    let command = Command::SearchConsole {
        command: SearchConsoleCommand::Queries(SearchConsoleArgs { dates: dates(Some(30)), dimension: None, granularity: None, sort: None }),
    };
    let mut g = global();
    g.per_page = Some(50);
    let request = plan(&command, &g, Some(1));
    assert_eq!(request.path, "/search_console/queries");
    assert_eq!(request.delivery, Delivery::List);
    assert_eq!(pairs(&request), vec![("project_id", "1"), ("range", "30"), ("per_page", "50")]);
}

#[test]
fn recommendations_are_launched_and_listed() {
    let launch = Command::Recommendations {
        command: RecommendationsCommand::Launch { recommendation_type: "ai_visibility".to_string() },
    };
    let request = plan(&launch, &global(), Some(123));
    assert_eq!(request.method, HttpMethod::Post);
    assert_eq!(request.path, "/recommendations");
    assert_eq!(
        request.body,
        Some(object(vec![
            ("project_id", Json::Number(JsonNumber::PosInt(123))),
            ("recommendation_type", Json::String("ai_visibility".to_string())),
        ]))
    );
    let list = Command::Recommendations { command: RecommendationsCommand::List { recommendation_type: None, status: None } };
    let request = plan(&list, &global(), Some(123));
    assert_eq!(request.delivery, Delivery::List);
    assert_eq!(pairs(&request), vec![("project_id", "123")]);
}

#[test]
fn webhooks_are_subscribed_with_a_body() {
    let command = Command::Webhooks {
        command: WebhooksCommand::Create {
            event_type: "mention.created".to_string(),
            target_url: "https://example.com/webhooks/llmpulse".to_string(),
        },
    };
    let request = plan(&command, &global(), Some(9));
    assert_eq!(request.path, "/webhooks");
    assert_eq!(
        request.body,
        Some(object(vec![
            ("project_id", Json::Number(JsonNumber::PosInt(9))),
            ("event_type", Json::String("mention.created".to_string())),
            ("target_url", Json::String("https://example.com/webhooks/llmpulse".to_string())),
        ]))
    );
}

#[test]
fn direct_calls_send_query_pairs_or_a_body() {
    let get = Command::Api(ApiArgs {
        method: HttpMethod::Get,
        path: "/metrics/summary".to_string(),
        query: vec!["project_id=123".to_string(), "range=28".to_string()],
        body: None,
    });
    let request = plan(&get, &global(), None);
    assert_eq!(request.path, "/metrics/summary");
    assert_eq!(pairs(&request), vec![("project_id", "123"), ("range", "28")]);
    let body = object(vec![
        ("project_id", Json::Number(JsonNumber::PosInt(123))),
        ("recommendation_type", Json::String("ai_visibility".to_string())),
    ]);
    let post = Command::Api(ApiArgs {
        method: HttpMethod::Post,
        path: "/recommendations".to_string(),
        query: vec![],
        body: Some(r#"{"project_id":123,"recommendation_type":"ai_visibility"}"#.to_string()),
    });
    let request = plan(&post, &global(), None);
    assert_eq!(request.method, HttpMethod::Post);
    assert_eq!(request.body, Some(body));
}
