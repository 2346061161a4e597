use llmpulse_cli::api_manifest::SUPPORTED_REST_OPERATIONS;
use llmpulse_cli::cli::{
    AgentTrafficArgs, AiModelArgs, AiTrafficArgs, AnnotationListArgs, AnnotationUpdateArgs, AnnotationWriteArgs,
    AnnotationsCommand, AnswersCommand, CitationFilterArgs, CitationListArgs, CitationsCommand, CollectionCreateArgs,
    CollectionUpdateArgs, CollectionsCommand, Command, CompetitorCreateArgs, CompetitorUpdateArgs, CompetitorsCommand,
    CompetitorsDimensionCommand, DateArgs, DimensionListArgs, DimensionsCommand, FilterArgs, GlobalArgs, HttpMethod,
    IntelligenceTaskCreateArgs, IntelligenceTasksCommand, MetricArgs, MetricsCommand, ProjectCreateArgs,
    ProjectDraftStartArgs, ProjectsCommand, ProjectsDimensionCommand, PromptAssignTagsArgs, PromptCreateArgs,
    PromptSummaryArgs, PromptsCommand, RecommendationsCommand, ReportsCommand, SearchConsoleArgs, SearchConsoleCommand,
    SentimentListArgs, SentimentsCommand, TopSourcesArgs, WebhooksCommand,
};
use llmpulse_cli::commands::plan_request;
use llmpulse_cli::output::OutputFormat;

fn global() -> GlobalArgs {
    GlobalArgs {
        api_key: None,
        base_url: None,
        project_id: None,
        output: OutputFormat::Json,
        page: None,
        per_page: None,
        all: false,
        verbose: false,
    }
}

fn dates() -> DateArgs {
    DateArgs { range: None, from: None, to: None }
}

fn filters() -> FilterArgs {
    FilterArgs { model: None, collection_id: None, country_code: None, language_code: None, prompt: None, dates: dates() }
}

fn dimension_list() -> DimensionListArgs {
    DimensionListArgs { filters: filters(), competitors: vec![], include_project_brand: false }
}

fn metric() -> MetricArgs {
    MetricArgs { filters: filters(), metrics: vec![], granularity: None, competitors: vec![], include_project: false, group_by: None }
}

fn ai_model() -> AiModelArgs {
    AiModelArgs { filters: filters(), granularity: None, competitors: vec![], brand1: None, brand2: None }
}

fn search_console() -> SearchConsoleArgs {
    SearchConsoleArgs { dates: dates(), dimension: None, granularity: None, sort: None }
}

fn citation_filters() -> CitationFilterArgs {
    CitationFilterArgs { filters: filters(), view: None, query: None, source_type: None, sentiment: None, content_gap: None }
}

fn annotation_update() -> AnnotationUpdateArgs {
    AnnotationUpdateArgs { id: 7, title: Some("t".to_string()), description: None, color: None, date: None, category_id: None }
}

/// One command for each operation the client covers, with the ID 7, the
/// URL hash `abc` and the event type `prompt.created`.
fn sample_commands() -> Vec<Command> {
    let d = |command: DimensionsCommand| Command::Dimensions { command };
    let m = |command: MetricsCommand| Command::Metrics { command };
    let sc = |command: SearchConsoleCommand| Command::SearchConsole { command };
    vec![
        Command::Ping,
        m(MetricsCommand::Timeseries(metric())),
        m(MetricsCommand::Summary(metric())),
        m(MetricsCommand::PromptSummary(PromptSummaryArgs { metrics: metric(), sort: None, sort_dir: "desc".to_string(), breakdown: None })),
        m(MetricsCommand::Sov(metric())),
        m(MetricsCommand::TopSources(TopSourcesArgs { metrics: metric(), sort: None, query: None })),
        m(MetricsCommand::AgentTraffic(AgentTrafficArgs { dates: dates(), bot: None, company: None, group_by: None, granularity: None })),
        m(MetricsCommand::AiTraffic(AiTrafficArgs { dates: dates(), source: None, granularity: None })),
        sc(SearchConsoleCommand::Summary(search_console())),
        sc(SearchConsoleCommand::Timeseries(search_console())),
        sc(SearchConsoleCommand::Queries(search_console())),
        sc(SearchConsoleCommand::Pages(search_console())),
        d(DimensionsCommand::Projects { command: ProjectsDimensionCommand::List }),
        d(DimensionsCommand::Projects { command: ProjectsDimensionCommand::Get { id: 7 } }),
        d(DimensionsCommand::Competitors { command: CompetitorsDimensionCommand::List(dimension_list()) }),
        d(DimensionsCommand::Competitors { command: CompetitorsDimensionCommand::Get { id: 7 } }),
        d(DimensionsCommand::Collections(dimension_list())),
        d(DimensionsCommand::Tags(dimension_list())),
        d(DimensionsCommand::Models(dimension_list())),
        d(DimensionsCommand::Locales(dimension_list())),
        d(DimensionsCommand::Sentiments(dimension_list())),
        d(DimensionsCommand::Prompts(dimension_list())),
        d(DimensionsCommand::Executions(dimension_list())),
        d(DimensionsCommand::Sources(dimension_list())),
        d(DimensionsCommand::Mentions(dimension_list())),
        d(DimensionsCommand::Citations(dimension_list())),
        d(DimensionsCommand::CompetitorMentions(dimension_list())),
        d(DimensionsCommand::CompetitorCitations(dimension_list())),
        d(DimensionsCommand::AllMentions(dimension_list())),
        d(DimensionsCommand::AllCitations(dimension_list())),
        d(DimensionsCommand::AgentBots),
        Command::Citations { command: CitationsCommand::List(CitationListArgs { filters: citation_filters(), order: None, direction: "desc".to_string() }) },
        Command::Citations { command: CitationsCommand::MentionsByDomain { domains: vec!["a.example".to_string()], filters: filters() } },
        Command::Citations { command: CitationsCommand::Get { url_sha256: "abc".to_string(), filters: citation_filters() } },
        Command::Citations { command: CitationsCommand::Occurrences { url_sha256: "abc".to_string(), filters: citation_filters() } },
        Command::Citations { command: CitationsCommand::Content { url_sha256: "abc".to_string() } },
        m(MetricsCommand::AiModelSummary(ai_model())),
        m(MetricsCommand::AiModelPositions(ai_model())),
        m(MetricsCommand::AiOverviewResults(ai_model())),
        Command::Answers { command: AnswersCommand::List(filters()) },
        Command::Answers { command: AnswersCommand::Get { id: "7".to_string(), include_source_page_details: false } },
        Command::Sentiments { command: SentimentsCommand::List(SentimentListArgs { filters: filters(), competitor_id: None, brand_only: false, analysis: None }) },
        Command::Recommendations { command: RecommendationsCommand::List { recommendation_type: None, status: None } },
        Command::Recommendations { command: RecommendationsCommand::Launch { recommendation_type: "content".to_string() } },
        Command::Recommendations { command: RecommendationsCommand::Get { id: 7, item_status: None, resolve_source_refs: false } },
        Command::Projects { command: ProjectsCommand::DraftStart(ProjectDraftStartArgs { website_url: "https://a.example".to_string(), main_country: "US".to_string(), main_language: "en".to_string(), no_suggest: false }) },
        Command::Projects { command: ProjectsCommand::DraftGet { id: "7".to_string(), include_suggestions: false } },
        Command::Projects { command: ProjectsCommand::DraftStep { id: "7".to_string(), step: "brand".to_string(), payload: "{}".to_string() } },
        Command::Projects { command: ProjectsCommand::DraftFinalize { id: "7".to_string(), defer_execution: false } },
        Command::Projects { command: ProjectsCommand::Create(ProjectCreateArgs {
            website_url: "https://a.example".to_string(),
            name: "A".to_string(),
            main_country: "US".to_string(),
            main_language: "en".to_string(),
            brand_name: None,
            description: None,
            industry: vec![],
            matching_names: vec![],
            prompts: vec![],
            competitors: vec![],
            external_identifier: None,
            defer_execution: false,
        }) },
        Command::Prompts { command: PromptsCommand::Create(PromptCreateArgs { prompts: vec!["p".to_string()], country_code: "US".to_string(), language_code: "en".to_string() }) },
        Command::Prompts { command: PromptsCommand::Delete { id: 7, yes: true } },
        Command::Prompts { command: PromptsCommand::AssignTags(PromptAssignTagsArgs { prompt_ids: vec![1], tag_ids: vec![], tag_names: vec![], create_missing: false }) },
        Command::Competitors { command: CompetitorsCommand::Create(CompetitorCreateArgs { brand_name: "B".to_string(), domain: "b.example".to_string(), matching_names: vec![] }) },
        Command::Competitors { command: CompetitorsCommand::Update(CompetitorUpdateArgs { id: 7, brand_name: Some("B".to_string()), matching_names: vec![], color: None }) },
        Command::Competitors { command: CompetitorsCommand::Delete { id: 7, yes: true } },
        Command::Collections { command: CollectionsCommand::Create(CollectionCreateArgs { name: "C".to_string(), description: None, prompt_ids: vec![] }) },
        Command::Collections { command: CollectionsCommand::Update(CollectionUpdateArgs { id: 7, name: Some("C".to_string()), description: None }) },
        Command::Collections { command: CollectionsCommand::Delete { id: 7, yes: true } },
        Command::Annotations { command: AnnotationsCommand::List(AnnotationListArgs { from: None, to: None, category_id: None }) },
        Command::Annotations { command: AnnotationsCommand::Create(AnnotationWriteArgs { title: "t".to_string(), description: None, color: None, date: None, category_id: None }) },
        Command::Annotations { command: AnnotationsCommand::Update(annotation_update()) },
        Command::Annotations { command: AnnotationsCommand::Delete { id: 7, yes: true } },
        Command::Reports { command: ReportsCommand::TechnicalGeo { url: "https://a.example".to_string(), country_code: None } },
        Command::IntelligenceTasks { command: IntelligenceTasksCommand::List { task_type: None, status: None } },
        Command::IntelligenceTasks { command: IntelligenceTasksCommand::Create(IntelligenceTaskCreateArgs {
            task_type: "article".to_string(),
            prompt_id: None,
            custom_topic: None,
            instructions: None,
            output_language_code: None,
            existing_content: None,
            existing_content_url: None,
        }) },
        Command::IntelligenceTasks { command: IntelligenceTasksCommand::Get { id: "7".to_string() } },
        Command::Webhooks { command: WebhooksCommand::List },
        Command::Webhooks { command: WebhooksCommand::Create { event_type: "prompt.created".to_string(), target_url: "https://hook.example".to_string() } },
        Command::Webhooks { command: WebhooksCommand::Delete { id: 7, yes: true } },
        Command::Webhooks { command: WebhooksCommand::Sample { event_type: "prompt.created".to_string() } },
    ]
}

fn method_name(method: HttpMethod) -> &'static str {
    match method {
        HttpMethod::Get => "GET",
        HttpMethod::Post => "POST",
        HttpMethod::Patch => "PATCH",
        HttpMethod::Delete => "DELETE",
    }
}

fn concrete(template: &str) -> String {
    template.replace("{id}", "7").replace("{url_sha256}", "abc").replace("{event_type}", "prompt.created")
}

#[test]
fn every_manifest_path_is_wired_into_the_command_dispatcher() {
    let g = global();
    let planned: Vec<(&'static str, String)> = sample_commands()
        .iter()
        .map(|command| {
            let plan = plan_request(command, &g, Some(42)).expect("the command sends a request").expect("the request is planned");
            (method_name(plan.method), plan.path)
        })
        .collect();
    for (method, path) in SUPPORTED_REST_OPERATIONS {
        let literal = path.split('{').next().unwrap().trim_end_matches('/');
        let wanted = concrete(path);
        assert!(
            planned.iter().any(|(m, p)| *m == method && *p == wanted && p.starts_with(literal)),
            "REST operation path is not wired into commands.rs: {path}"
        );
    }
    assert_eq!(planned.len(), SUPPORTED_REST_OPERATIONS.len());
}
