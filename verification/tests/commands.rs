use chrono::Datelike;
use llmpulse_cli::cli::{
    ApiArgs, Command, CompetitorUpdateArgs, CompetitorsCommand, DateArgs, DimensionListArgs, DimensionsCommand,
    ExportArgs, FilterArgs, GlobalArgs, HttpMethod, IntelligenceTaskCreateArgs, IntelligenceTasksCommand,
    ProjectsCommand, PromptCreateArgs, PromptsCommand, RecommendationsCommand, WebhooksCommand,
};
use llmpulse_cli::commands::{
    confirm_delete, confirmation_answer, deletion_target, diff_dates, diff_requests, diff_value, export_query,
    export_resources, fetch_all_start, fetch_step, fetched_note, login_key, login_step, normalize_api_path, page_query,
    pick_project, plan_request, profile_lines, project_choices, report_markdown, report_requests, shown_config,
    shown_setting, shown_value, status_requests, status_value, Confirmation, Delivery, FetchStep, KeySource,
    LoginAction, LoginPhase, ProjectPick, RequestPlan,
};
use llmpulse_cli::config::Config;
use llmpulse_cli::error::CliError;
use llmpulse_cli::json::{Json, JsonNumber};
use llmpulse_cli::output::OutputFormat;

const NO_PROJECT: &str = "--project-id is required. Set a default with: llmpulse config set default_project_id <id>";

fn text(s: &str) -> Json {
    Json::String(s.to_string())
}

fn num(n: u64) -> Json {
    Json::Number(JsonNumber::PosInt(n))
}

fn object(members: Vec<(&str, Json)>) -> Json {
    Json::Object(members.into_iter().map(|(k, v)| (k.to_string(), v)).collect())
}

fn global() -> GlobalArgs {
    GlobalArgs {
        api_key: None,
        base_url: None,
        project_id: None,
        output: OutputFormat::Json,
        page: None,
        per_page: None,
        all: false,
        verbose: false,
    }
}

fn filters() -> FilterArgs {
    FilterArgs {
        model: None,
        collection_id: None,
        country_code: None,
        language_code: None,
        prompt: None,
        dates: DateArgs { range: None, from: None, to: None },
    }
}

fn pairs(query: &[(String, String)]) -> Vec<(&str, &str)> {
    query.iter().map(|(k, v)| (k.as_str(), v.as_str())).collect()
}

fn plan(command: &Command, g: &GlobalArgs, project: Option<u64>) -> Result<RequestPlan, CliError> {
    plan_request(command, g, project).expect("the command sends one request")
}

fn usage_text(result: Result<RequestPlan, CliError>) -> String {
    match result {
        Err(CliError::Usage(text)) => text,
        other => panic!("expected a usage error, got {other:?}"),
    }
}

fn api(method: HttpMethod, path: &str, query: &[&str], body: Option<&str>) -> Command {
    Command::Api(ApiArgs {
        method,
        path: path.to_string(),
        query: query.iter().map(|q| q.to_string()).collect(),
        body: body.map(String::from),
    })
}

#[test]
fn raw_api_only_accepts_relative_paths() {
    assert_eq!(normalize_api_path("metrics/summary").unwrap(), "/metrics/summary");
    assert!(normalize_api_path("https://evil.example").is_err());
}

#[test]
fn creates_prompts_with_a_json_body() {
    let command = Command::Prompts {
        command: PromptsCommand::Create(PromptCreateArgs {
            prompts: vec!["best crm".to_string(), "top crm tools".to_string()],
            country_code: "US".to_string(),
            language_code: "en".to_string(),
        }),
    };
    let mut g = global();
    g.project_id = Some(42);
    let request = plan(&command, &g, Some(42)).unwrap();
    assert_eq!(request.method, HttpMethod::Post);
    assert_eq!(request.path, "/prompts");
    let body = request.body.unwrap();
    assert_eq!(body.get("project_id"), Some(&num(42)));
    assert_eq!(body.get("prompts"), Some(&Json::Array(vec![text("best crm"), text("top crm tools")])));
    assert_eq!(body.get("country_code"), Some(&text("US")));
}

#[test]
fn raw_api_paths_are_checked_and_rooted() {
    assert_eq!(normalize_api_path("/ping").unwrap(), "/ping");
    assert_eq!(normalize_api_path("").unwrap(), "/");
    for bad in ["a\nb", "a\rb", "x://y"] {
        match normalize_api_path(bad) {
            Err(CliError::Usage(text)) => assert_eq!(text, "The API path must be relative to the configured base URL"),
            other => panic!("unexpected {other:?}"),
        }
    }
}

#[test]
fn raw_api_reads_query_pairs_and_body() {
    let g = global();
    let request = plan(&api(HttpMethod::Get, "metrics/summary", &["a=1", "b=x=y", "c="], None), &g, None).unwrap();
    assert_eq!(request.path, "/metrics/summary");
    assert_eq!(pairs(&request.query), vec![("a", "1"), ("b", "x=y"), ("c", "")]);
    assert!(request.body.is_none());

    let request = plan(&api(HttpMethod::Post, "/things", &["a=1"], None), &g, None).unwrap();
    assert_eq!(request.body, Some(Json::Object(vec![])));
    assert!(request.query.is_empty());

    let request = plan(&api(HttpMethod::Patch, "/things", &[], Some("3")), &g, None).unwrap();
    assert_eq!(request.method, HttpMethod::Patch);
    assert_eq!(request.body, Some(num(3)));

    let request = plan(&api(HttpMethod::Delete, "/things/1", &["force=true"], None), &g, None).unwrap();
    assert_eq!(request.method, HttpMethod::Delete);
    assert_eq!(pairs(&request.query), vec![("force", "true")]);

    assert_eq!(
        usage_text(plan(&api(HttpMethod::Get, "/x", &["a=1", "novalue", "b"], None), &g, None)),
        "Invalid query 'novalue'. Use KEY=VALUE"
    );
    assert_eq!(
        usage_text(plan(&api(HttpMethod::Get, "/x", &[], Some("{")), &g, None)),
        format!("--body must be valid JSON: {}", serde_json::from_str::<serde_json::Value>("{").unwrap_err())
    );
    assert_eq!(
        usage_text(plan(&api(HttpMethod::Get, "https://x", &["bad"], None), &g, None)),
        "The API path must be relative to the configured base URL"
    );
}

#[test]
fn listings_send_filters_lists_and_pagination() {
    let mut f = filters();
    f.model = Some("gpt".to_string());
    f.country_code = Some(String::new());
    f.dates.range = Some(30);
    f.dates.from = Some("2024-01-01".to_string());
    let command = Command::Dimensions {
        command: DimensionsCommand::Mentions(DimensionListArgs { filters: f, competitors: vec![3, 5], include_project_brand: true }),
    };
    let mut g = global();
    g.page = Some(2);
    g.per_page = Some(50);
    let request = plan(&command, &g, Some(9)).unwrap();
    assert_eq!(request.path, "/dimensions/mentions");
    assert_eq!(request.delivery, Delivery::List);
    assert_eq!(
        pairs(&request.query),
        vec![
            ("project_id", "9"),
            ("model", "gpt"),
            ("from", "2024-01-01"),
            ("competitors", "3,5"),
            ("include_project_brand", "true"),
            ("page", "2"),
            ("per_page", "50"),
        ]
    );
    g.all = true;
    let request = plan(&command, &g, Some(9)).unwrap();
    assert_eq!(request.delivery, Delivery::FetchAll);
    assert_eq!(request.query.len(), 5);
}

#[test]
fn commands_that_need_a_project_say_so() {
    let command = Command::Dimensions { command: DimensionsCommand::Tags(DimensionListArgs { filters: filters(), competitors: vec![], include_project_brand: false }) };
    assert_eq!(usage_text(plan(&command, &global(), None)), NO_PROJECT);
    let agents = Command::Dimensions { command: DimensionsCommand::AgentBots };
    let request = plan(&agents, &global(), None).unwrap();
    assert_eq!(request.path, "/dimensions/agent_bots");
    assert!(request.query.is_empty());
}

#[test]
fn empty_updates_are_refused_before_the_project_is_needed() {
    let command = Command::Competitors {
        command: CompetitorsCommand::Update(CompetitorUpdateArgs { id: 4, brand_name: None, matching_names: vec![], color: None }),
    };
    assert_eq!(usage_text(plan(&command, &global(), None)), "Provide --brand-name, --matching-names, or --color");
    let command = Command::Competitors {
        command: CompetitorsCommand::Update(CompetitorUpdateArgs { id: 4, brand_name: None, matching_names: vec!["x".to_string()], color: None }),
    };
    assert_eq!(usage_text(plan(&command, &global(), None)), NO_PROJECT);
    let request = plan(&command, &global(), Some(1)).unwrap();
    assert_eq!(request.path, "/competitors/4");
    assert_eq!(request.body, Some(object(vec![("project_id", num(1)), ("matching_names", Json::Array(vec![text("x")]))])));
}

#[test]
fn unset_options_are_left_out_of_bodies() {
    let command = Command::IntelligenceTasks {
        command: IntelligenceTasksCommand::Create(IntelligenceTaskCreateArgs {
            task_type: "article".to_string(),
            prompt_id: Some(12),
            custom_topic: None,
            instructions: Some("short".to_string()),
            output_language_code: None,
            existing_content: None,
            existing_content_url: None,
        }),
    };
    let request = plan(&command, &global(), Some(2)).unwrap();
    assert_eq!(
        request.body,
        Some(object(vec![
            ("project_id", num(2)),
            ("task_type", text("article")),
            ("prompt_id", num(12)),
            ("user_instructions", text("short")),
        ]))
    );
}

#[test]
fn recommendations_always_send_the_source_flag() {
    let command = Command::Recommendations {
        command: RecommendationsCommand::Get { id: 8, item_status: Some("open".to_string()), resolve_source_refs: false },
    };
    let request = plan(&command, &global(), Some(1)).unwrap();
    assert_eq!(request.path, "/recommendations/8");
    assert_eq!(pairs(&request.query), vec![("project_id", "1"), ("item_status", "open"), ("resolve_source_refs", "false")]);
}

#[test]
fn draft_steps_need_an_object_payload() {
    let step = |payload: &str| Command::Projects {
        command: ProjectsCommand::DraftStep { id: "d1".to_string(), step: "brand".to_string(), payload: payload.to_string() },
    };
    assert_eq!(
        usage_text(plan(&step("nope"), &global(), None)),
        format!("--payload must be a JSON object: {}", serde_json::from_str::<serde_json::Value>("nope").unwrap_err())
    );
    assert_eq!(usage_text(plan(&step("1"), &global(), None)), "--payload must be a JSON object");
    let request = plan(&step(r#"{"step":"old","name":"A"}"#), &global(), None).unwrap();
    assert_eq!(request.method, HttpMethod::Patch);
    assert_eq!(request.path, "/project_drafts/d1");
    assert_eq!(request.body, Some(object(vec![("name", text("A")), ("step", text("brand"))])));
    let request = plan(&step(r#"{"name":"A"}"#), &global(), None).unwrap();
    assert_eq!(request.body, Some(object(vec![("name", text("A")), ("step", text("brand"))])));
}

#[test]
fn webhook_listing_sends_only_a_given_project() {
    let command = Command::Webhooks { command: WebhooksCommand::List };
    let request = plan(&command, &global(), Some(5)).unwrap();
    assert!(request.query.is_empty());
    let mut g = global();
    g.project_id = Some(6);
    let request = plan(&command, &g, Some(6)).unwrap();
    assert_eq!(pairs(&request.query), vec![("project_id", "6")]);
    let ping = plan(&Command::Ping, &g, None).unwrap();
    assert_eq!(ping.path, "/ping");
    assert_eq!(pairs(&ping.query), vec![("project_id", "6")]);
}

#[test]
fn deletions_are_confirmed() {
    let command = Command::Prompts { command: PromptsCommand::Delete { id: 11, yes: false } };
    let (resource, yes) = deletion_target(&command).unwrap();
    assert_eq!(resource, "prompt 11");
    assert!(!yes);
    assert!(deletion_target(&Command::Ping).is_none());
    assert!(matches!(confirm_delete("prompt 11", true, false), Ok(Confirmation::Proceed)));
    match confirm_delete("prompt 11", false, false) {
        Err(CliError::Usage(text)) => assert_eq!(text, "Deleting prompt 11 requires --yes when input is not interactive"),
        other => panic!("unexpected {other:?}"),
    }
    match confirm_delete("webhook 2", false, true) {
        Ok(Confirmation::Ask(question)) => assert_eq!(question, "Delete webhook 2? This cannot be undone"),
        other => panic!("unexpected {other:?}"),
    }
    assert!(confirmation_answer(true).is_ok());
    match confirmation_answer(false) {
        Err(CliError::Usage(text)) => assert_eq!(text, "Delete cancelled"),
        other => panic!("unexpected {other:?}"),
    }
    let request = plan(&command, &global(), Some(3)).unwrap();
    assert_eq!(request.method, HttpMethod::Delete);
    assert_eq!(request.path, "/prompts/11");
    assert_eq!(pairs(&request.query), vec![("project_id", "3")]);
}

#[test]
fn fetching_every_page_accumulates_rows() {
    let base = vec![("project_id".to_string(), "1".to_string())];
    let state = fetch_all_start(base);
    assert_eq!(state.page, 1);
    assert_eq!(pairs(&page_query(&state)), vec![("project_id", "1"), ("page", "1"), ("per_page", "100")]);
    let full: Vec<Json> = (0..100).map(num).collect();
    let state = match fetch_step(state, &object(vec![("data", Json::Array(full))])) {
        FetchStep::More(next) => next,
        FetchStep::Done(_) => panic!("a full page ends the fetch"),
    };
    assert_eq!(state.page, 2);
    assert_eq!(state.rows.len(), 100);
    assert_eq!(pairs(&page_query(&state))[1], ("page", "2"));
    match fetch_step(state, &Json::Array(vec![num(100), num(101)])) {
        FetchStep::Done(Json::Array(rows)) => {
            assert_eq!(rows.len(), 102);
            assert_eq!(rows[0], num(0));
            assert_eq!(rows[101], num(101));
        },
        other => panic!("unexpected {other:?}"),
    }
    let state = fetch_all_start(vec![]);
    match fetch_step(state, &object(vec![("status", text("ok"))])) {
        FetchStep::Done(value) => assert_eq!(value, object(vec![("status", text("ok"))])),
        other => panic!("unexpected {other:?}"),
    }
}

#[test]
fn lists_show_their_rows() {
    let data = object(vec![("data", Json::Array(vec![num(1)])), ("page", num(1))]);
    assert_eq!(shown_value(&data, true), Json::Array(vec![num(1)]));
    assert_eq!(shown_value(&data, false), data);
    assert_eq!(shown_value(&num(4), true), num(4));
    assert_eq!(fetched_note(&Json::Array(vec![num(1), num(2)])), Some("Fetched 2 records".to_string()));
    assert_eq!(fetched_note(&num(1)), None);
}

#[test]
fn status_and_report_ask_four_sources() {
    let requests = status_requests(30, Some(7)).unwrap();
    let paths: Vec<&str> = requests.iter().map(|r| r.path.as_str()).collect();
    assert_eq!(paths, vec!["/metrics/summary", "/metrics/sov", "/metrics/timeseries", "/metrics/prompt_summary"]);
    assert_eq!(pairs(&requests[2].query), vec![("project_id", "7"), ("range", "30")]);
    assert!(status_requests(30, None).is_err());
    let value = status_value(30, num(1), num(2), num(3), num(4));
    assert_eq!(
        value,
        object(vec![("range_days", num(30)), ("summary", num(1)), ("share_of_voice", num(2)), ("timeseries", num(3)), ("prompts", num(4))])
    );
    let requests = report_requests(14, Some(7)).unwrap();
    assert_eq!(requests[2].path, "/metrics/top_sources");
    assert_eq!(pairs(&requests[0].query), vec![("project_id", "7"), ("range", "14"), ("per_page", "10")]);
}

#[test]
fn markdown_report_has_a_section_per_part() {
    let parts = vec!["{}".to_string(), "[]".to_string(), "1".to_string(), "null".to_string()];
    assert_eq!(
        report_markdown(7, &parts),
        "# LLM Pulse report\n\nPeriod: last 7 days\n\n## Summary\n\n```json\n{}\n```\n\n## Share of voice\n\n```json\n[]\n```\n\n## Top sources\n\n```json\n1\n```\n\n## Top prompts\n\n```json\nnull\n```\n\n"
    );
}

#[test]
fn diff_compares_adjacent_periods() {
    let today = chrono::NaiveDate::from_ymd_opt(2024, 3, 10).unwrap().num_days_from_ce();
    let dates = diff_dates(today, 7, 7).unwrap();
    assert_eq!(dates.current_from, "2024-03-04");
    assert_eq!(dates.current_to, "2024-03-10");
    assert_eq!(dates.previous_to, "2024-03-03");
    assert_eq!(dates.previous_from, "2024-02-26");
    let dates = diff_dates(today, 0, 1).unwrap();
    assert_eq!(dates.current_from, "2024-03-10");
    assert_eq!(dates.previous_from, "2024-03-09");
    assert!(diff_dates(today, u32::MAX, 7).is_none());
    let requests = diff_requests(&diff_dates(today, 7, 7).unwrap(), Some(4)).unwrap();
    assert_eq!(pairs(&requests[1].query), vec![("project_id", "4"), ("from", "2024-02-26"), ("to", "2024-03-03")]);
    let value = diff_value(&diff_dates(today, 7, 7).unwrap(), num(1), num(2), num(3));
    assert_eq!(value.get("change"), Some(&num(3)));
    assert_eq!(value.get("current").unwrap().get("from"), Some(&text("2024-03-04")));
}

#[test]
fn export_covers_eight_listings() {
    let resources = export_resources();
    assert_eq!(resources.len(), 8);
    assert_eq!(resources[0], ("prompts".to_string(), "/dimensions/prompts".to_string()));
    assert_eq!(resources[7], ("sentiments".to_string(), "/sentiments".to_string()));
    let args = ExportArgs { directory: "out".to_string(), from: Some("2024-01-01".to_string()), to: None };
    assert_eq!(pairs(&export_query(&args, Some(2)).unwrap()), vec![("project_id", "2"), ("from", "2024-01-01")]);
    assert!(export_query(&args, None).is_err());
}

#[test]
fn login_takes_the_key_from_flag_environment_or_prompt() {
    let flag = Some("flag".to_string());
    let env = Some("env".to_string());
    assert!(matches!(login_key(&flag, &env, false), Ok(KeySource::Flag(k)) if k == "flag"));
    assert!(matches!(login_key(&None, &env, false), Ok(KeySource::Environment(k)) if k == "env"));
    assert!(matches!(login_key(&None, &None, true), Ok(KeySource::Prompt)));
    match login_key(&None, &None, false) {
        Err(CliError::Usage(text)) => assert_eq!(text, "Pass --api-key or set LLMPULSE_API_KEY when login is not interactive"),
        other => panic!("unexpected {other:?}"),
    }
}

#[test]
fn projects_are_offered_by_name_and_id() {
    let data = object(vec![(
        "data",
        Json::Array(vec![
            object(vec![("id", num(3)), ("name", text("Acme"))]),
            object(vec![("name", text("No id"))]),
            object(vec![("id", num(4))]),
        ]),
    )]);
    let choices = project_choices(&data).unwrap();
    assert_eq!(choices, vec![(3, "Acme (3)".to_string()), (4, "Unnamed project (4)".to_string())]);
    match pick_project(&choices) {
        ProjectPick::Ask(labels) => assert_eq!(labels, vec!["Acme (3)".to_string(), "Unnamed project (4)".to_string()]),
        other => panic!("unexpected {other:?}"),
    }
    assert!(matches!(pick_project(&choices[..1].to_vec()), ProjectPick::Only(3)));
    assert!(matches!(pick_project(&vec![]), ProjectPick::Nothing));
    assert!(project_choices(&num(1)).is_none());
}

#[test]
fn profiles_mark_the_active_one() {
    let lines = profile_lines(&Some("work".to_string()), &vec!["home".to_string(), "work".to_string()]);
    assert_eq!(lines, vec!["  home".to_string(), "* work".to_string()]);
    let lines = profile_lines(&None, &vec!["home".to_string()]);
    assert_eq!(lines, vec!["  home".to_string()]);
}

#[test]
fn shown_settings_hide_the_api_key() {
    assert_eq!(shown_setting("api_key", "llmpulse_abcdefghijk".to_string()), Some("llmpulse_abc***ijk".to_string()));
    assert_eq!(shown_setting("base_url", "https://a.example".to_string()), Some("https://a.example".to_string()));
    let config = Config {
        api_key: Some("short".to_string()),
        base_url: None,
        default_project_id: Some(5),
        active_profile: Some("work".to_string()),
    };
    assert_eq!(
        shown_config(&config),
        Some(object(vec![("api_key", text("***")), ("default_project_id", num(5)), ("active_profile", text("work"))]))
    );
}

#[test]
fn login_checks_the_key_before_saving() {
    let key = "llmpulse_key".to_string();
    let mut g = global();
    g.base_url = Some("https://api.example.com".to_string());
    let (action, phase) = login_step(&key, &g, false, LoginPhase::Start);
    match action {
        LoginAction::Verify(plan) => assert_eq!(plan.path, "/ping"),
        other => panic!("unexpected {other:?}"),
    }
    assert_eq!(phase, LoginPhase::Verified);
    let (action, phase) = login_step(&key, &g, false, phase);
    match action {
        LoginAction::Save(settings) => assert_eq!(
            pairs(&settings),
            vec![("api_key", "llmpulse_key"), ("base_url", "https://api.example.com")]
        ),
        other => panic!("unexpected {other:?}"),
    }
    assert_eq!(phase, LoginPhase::KeySaved);
    let (action, phase) = login_step(&key, &g, false, phase);
    assert!(matches!(action, LoginAction::Finish));
    assert_eq!(phase, LoginPhase::Finished);

    let (action, phase) = login_step(&key, &g, true, LoginPhase::KeySaved);
    assert!(matches!(action, LoginAction::ChooseProject));
    assert_eq!(phase, LoginPhase::Choosing);
    let (action, phase) = login_step(&key, &g, true, LoginPhase::ProjectKnown(Some(8)));
    match action {
        LoginAction::Save(settings) => assert_eq!(pairs(&settings), vec![("default_project_id", "8")]),
        other => panic!("unexpected {other:?}"),
    }
    assert_eq!(phase, LoginPhase::Finished);
    g.project_id = Some(5);
    match login_step(&key, &g, true, LoginPhase::KeySaved).0 {
        LoginAction::Save(settings) => assert_eq!(pairs(&settings), vec![("default_project_id", "5")]),
        other => panic!("unexpected {other:?}"),
    }
}
