//! The command line: global options, commands and their arguments.
use vstd::prelude::*;

use crate::output::OutputFormat;

verus! {

/// The shells a completion script can be generated for.
#[derive(Debug, Clone, Copy, PartialEq, Eq)]
pub enum Shell {
    Bash,
    Elvish,
    Fish,
    PowerShell,
    Zsh,
}

#[derive(Debug)]
pub struct Cli {
    pub global: GlobalArgs,
    pub command: Command,
}

#[derive(Debug)]
pub struct GlobalArgs {
    pub api_key: Option<String>,
    pub base_url: Option<String>,
    pub project_id: Option<u64>,
    pub output: OutputFormat,
    pub page: Option<u32>,
    pub per_page: Option<u32>,
    pub all: bool,
    pub verbose: bool,
}

#[derive(Debug)]
pub enum Command {
    /// Configure an API key and default project interactively.
    Login,
    /// Show a compact project dashboard.
    Status(StatusArgs),
    /// Read or change local CLI configuration.
    Config {
        command: ConfigCommand,
    },
    /// Check API connectivity and authentication.
    Ping,
    /// Query projects, prompts, mentions, citations, and other dimensions.
    Dimensions {
        command: DimensionsCommand,
    },
    /// Query visibility, share of voice, traffic, and model metrics.
    Metrics {
        command: MetricsCommand,
    },
    /// Query Google Search Console data.
    SearchConsole {
        command: SearchConsoleCommand,
    },
    /// Query citation intelligence and cited-page evidence.
    Citations {
        command: CitationsCommand,
    },
    /// Query AI model responses.
    Answers {
        command: AnswersCommand,
    },
    /// Query sentiment records.
    Sentiments {
        command: SentimentsCommand,
    },
    /// List, inspect, and launch recommendation runs.
    Recommendations {
        command: RecommendationsCommand,
    },
    /// List, inspect, and create GEO Writer tasks.
    IntelligenceTasks {
        command: IntelligenceTasksCommand,
    },
    /// Create and delete prompts or assign tags.
    Prompts {
        command: PromptsCommand,
    },
    /// Create, update, and delete competitors.
    Competitors {
        command: CompetitorsCommand,
    },
    /// Create a project directly or through a draft.
    Projects {
        command: ProjectsCommand,
    },
    /// Create, update, and delete collections.
    Collections {
        command: CollectionsCommand,
    },
    /// List, create, update, and delete timeline annotations.
    Annotations {
        command: AnnotationsCommand,
    },
    /// Queue analysis reports.
    Reports {
        command: ReportsCommand,
    },
    /// Manage webhook subscriptions and sample payloads.
    Webhooks {
        command: WebhooksCommand,
    },
    /// Compare two adjacent date ranges.
    Diff(DiffArgs),
    /// Generate a visibility report.
    Report(ReportArgs),
    /// Refresh the project dashboard on an interval.
    Watch(WatchArgs),
    /// Export project data to JSON and CSV files.
    Export(ExportArgs),
    /// Generate a shell completion script.
    Completions(CompletionsArgs),
    /// Call a REST endpoint directly.
    Api(ApiArgs),
}

#[derive(Debug)]
pub enum ConfigCommand {
    SetValue { key: String, value: String },
    Get { key: String },
    Show,
    Use { profile: String },
    Profiles,
}

#[derive(Debug)]
pub struct DateArgs {
    pub range: Option<u32>,
    pub from: Option<String>,
    pub to: Option<String>,
}

#[derive(Debug)]
pub struct FilterArgs {
    pub model: Option<String>,
    pub collection_id: Option<u64>,
    pub country_code: Option<String>,
    pub language_code: Option<String>,
    pub prompt: Option<u64>,
    pub dates: DateArgs,
}

#[derive(Debug)]
pub struct DimensionListArgs {
    pub filters: FilterArgs,
    pub competitors: Vec<u64>,
    pub include_project_brand: bool,
}

#[derive(Debug)]
pub enum DimensionsCommand {
    Projects {
        command: ProjectsDimensionCommand,
    },
    Competitors {
        command: CompetitorsDimensionCommand,
    },
    Collections(DimensionListArgs),
    Tags(DimensionListArgs),
    Models(DimensionListArgs),
    Locales(DimensionListArgs),
    Sentiments(DimensionListArgs),
    Prompts(DimensionListArgs),
    Executions(DimensionListArgs),
    Sources(DimensionListArgs),
    Mentions(DimensionListArgs),
    Citations(DimensionListArgs),
    CompetitorMentions(DimensionListArgs),
    CompetitorCitations(DimensionListArgs),
    AllMentions(DimensionListArgs),
    AllCitations(DimensionListArgs),
    AgentBots,
}

#[derive(Debug)]
pub enum ProjectsDimensionCommand {
    List,
    Get { id: u64 },
}

#[derive(Debug)]
pub enum CompetitorsDimensionCommand {
    List(DimensionListArgs),
    Get { id: u64 },
}

#[derive(Debug)]
pub struct MetricArgs {
    pub filters: FilterArgs,
    pub metrics: Vec<String>,
    pub granularity: Option<String>,
    pub competitors: Vec<u64>,
    pub include_project: bool,
    pub group_by: Option<String>,
}

#[derive(Debug)]
pub struct PromptSummaryArgs {
    pub metrics: MetricArgs,
    pub sort: Option<String>,
    pub sort_dir: String,
    pub breakdown: Option<String>,
}

#[derive(Debug)]
pub struct TopSourcesArgs {
    pub metrics: MetricArgs,
    pub sort: Option<String>,
    pub query: Option<String>,
}

#[derive(Debug)]
pub struct AgentTrafficArgs {
    pub dates: DateArgs,
    pub bot: Option<String>,
    pub company: Option<String>,
    pub group_by: Option<String>,
    pub granularity: Option<String>,
}

#[derive(Debug)]
pub struct AiTrafficArgs {
    pub dates: DateArgs,
    pub source: Option<String>,
    pub granularity: Option<String>,
}

#[derive(Debug)]
pub struct AiModelArgs {
    pub filters: FilterArgs,
    pub granularity: Option<String>,
    pub competitors: Vec<u64>,
    pub brand1: Option<u64>,
    pub brand2: Option<u64>,
}

#[derive(Debug)]
pub enum MetricsCommand {
    Timeseries(MetricArgs),
    Summary(MetricArgs),
    PromptSummary(PromptSummaryArgs),
    Sov(MetricArgs),
    TopSources(TopSourcesArgs),
    AgentTraffic(AgentTrafficArgs),
    AiTraffic(AiTrafficArgs),
    AiModelSummary(AiModelArgs),
    AiModelPositions(AiModelArgs),
    AiOverviewResults(AiModelArgs),
}

#[derive(Debug)]
pub struct SearchConsoleArgs {
    pub dates: DateArgs,
    pub dimension: Option<String>,
    pub granularity: Option<String>,
    pub sort: Option<String>,
}

#[derive(Debug)]
pub enum SearchConsoleCommand {
    Summary(SearchConsoleArgs),
    Timeseries(SearchConsoleArgs),
    Queries(SearchConsoleArgs),
    Pages(SearchConsoleArgs),
}

#[derive(Debug)]
pub struct CitationFilterArgs {
    pub filters: FilterArgs,
    pub view: Option<String>,
    pub query: Option<String>,
    pub source_type: Option<String>,
    pub sentiment: Option<String>,
    pub content_gap: Option<String>,
}

#[derive(Debug)]
pub struct CitationListArgs {
    pub filters: CitationFilterArgs,
    pub order: Option<String>,
    pub direction: String,
}

#[derive(Debug)]
pub enum CitationsCommand {
    List(CitationListArgs),
    MentionsByDomain {
        domains: Vec<String>,
        filters: FilterArgs,
    },
    Get {
        url_sha256: String,
        filters: CitationFilterArgs,
    },
    Occurrences {
        url_sha256: String,
        filters: CitationFilterArgs,
    },
    Content {
        url_sha256: String,
    },
}

#[derive(Debug)]
pub enum AnswersCommand {
    List(FilterArgs),
    Get {
        id: String,
        include_source_page_details: bool,
    },
}

#[derive(Debug)]
pub struct SentimentListArgs {
    pub filters: FilterArgs,
    pub competitor_id: Option<u64>,
    pub brand_only: bool,
    pub analysis: Option<String>,
}

#[derive(Debug)]
pub enum SentimentsCommand {
    List(SentimentListArgs),
}

#[derive(Debug)]
pub enum RecommendationsCommand {
    List {
        recommendation_type: Option<String>,
        status: Option<String>,
    },
    Get {
        id: u64,
        item_status: Option<String>,
        resolve_source_refs: bool,
    },
    Launch {
        recommendation_type: String,
    },
}

#[derive(Debug)]
pub enum IntelligenceTasksCommand {
    List {
        task_type: Option<String>,
        status: Option<String>,
    },
    Get {
        id: String,
    },
    Create(IntelligenceTaskCreateArgs),
}

#[derive(Debug)]
pub struct IntelligenceTaskCreateArgs {
    pub task_type: String,
    pub prompt_id: Option<u64>,
    pub custom_topic: Option<String>,
    pub instructions: Option<String>,
    pub output_language_code: Option<String>,
    pub existing_content: Option<String>,
    pub existing_content_url: Option<String>,
}

#[derive(Debug)]
pub enum PromptsCommand {
    Create(PromptCreateArgs),
    AssignTags(PromptAssignTagsArgs),
    Delete {
        id: u64,
        yes: bool,
    },
}

#[derive(Debug)]
pub struct PromptCreateArgs {
    pub prompts: Vec<String>,
    pub country_code: String,
    pub language_code: String,
}

#[derive(Debug)]
pub struct PromptAssignTagsArgs {
    pub prompt_ids: Vec<u64>,
    pub tag_ids: Vec<u64>,
    pub tag_names: Vec<String>,
    pub create_missing: bool,
}

#[derive(Debug)]
pub enum CompetitorsCommand {
    Create(CompetitorCreateArgs),
    Update(CompetitorUpdateArgs),
    Delete {
        id: u64,
        yes: bool,
    },
}

#[derive(Debug)]
pub struct CompetitorCreateArgs {
    pub brand_name: String,
    pub domain: String,
    pub matching_names: Vec<String>,
}

#[derive(Debug)]
pub struct CompetitorUpdateArgs {
    pub id: u64,
    pub brand_name: Option<String>,
    pub matching_names: Vec<String>,
    pub color: Option<String>,
}

#[derive(Debug)]
pub enum ProjectsCommand {
    Create(ProjectCreateArgs),
    DraftStart(ProjectDraftStartArgs),
    DraftGet {
        id: String,
        include_suggestions: bool,
    },
    DraftStep {
        id: String,
        step: String,
        payload: String,
    },
    DraftFinalize {
        id: String,
        defer_execution: bool,
    },
}

#[derive(Debug)]
pub struct ProjectCreateArgs {
    pub website_url: String,
    pub name: String,
    pub main_country: String,
    pub main_language: String,
    pub brand_name: Option<String>,
    pub description: Option<String>,
    pub industry: Vec<String>,
    pub matching_names: Vec<String>,
    pub prompts: Vec<String>,
    pub competitors: Vec<String>,
    pub external_identifier: Option<String>,
    pub defer_execution: bool,
}

#[derive(Debug)]
pub struct ProjectDraftStartArgs {
    pub website_url: String,
    pub main_country: String,
    pub main_language: String,
    pub no_suggest: bool,
}

#[derive(Debug)]
pub enum CollectionsCommand {
    Create(CollectionCreateArgs),
    Update(CollectionUpdateArgs),
    Delete {
        id: u64,
        yes: bool,
    },
}

#[derive(Debug)]
pub struct CollectionCreateArgs {
    pub name: String,
    pub description: Option<String>,
    pub prompt_ids: Vec<u64>,
}

#[derive(Debug)]
pub struct CollectionUpdateArgs {
    pub id: u64,
    pub name: Option<String>,
    pub description: Option<String>,
}

#[derive(Debug)]
pub enum AnnotationsCommand {
    List(AnnotationListArgs),
    Create(AnnotationWriteArgs),
    Update(AnnotationUpdateArgs),
    Delete {
        id: u64,
        yes: bool,
    },
}

#[derive(Debug)]
pub struct AnnotationListArgs {
    pub from: Option<String>,
    pub to: Option<String>,
    pub category_id: Option<u64>,
}

#[derive(Debug)]
pub struct AnnotationWriteArgs {
    pub title: String,
    pub description: Option<String>,
    pub color: Option<String>,
    pub date: Option<String>,
    pub category_id: Option<u64>,
}

#[derive(Debug)]
pub struct AnnotationUpdateArgs {
    pub id: u64,
    pub title: Option<String>,
    pub description: Option<String>,
    pub color: Option<String>,
    pub date: Option<String>,
    pub category_id: Option<u64>,
}

#[derive(Debug)]
pub enum ReportsCommand {
    TechnicalGeo {
        url: String,
        country_code: Option<String>,
    },
}

#[derive(Debug)]
pub enum WebhooksCommand {
    List,
    Create {
        event_type: String,
        target_url: String,
    },
    Delete {
        id: u64,
        yes: bool,
    },
    Sample {
        event_type: String,
    },
}

#[derive(Debug)]
pub struct StatusArgs {
    pub range: u32,
}

#[derive(Debug)]
pub struct DiffArgs {
    pub range: u32,
    pub compare: u32,
}

#[derive(Debug)]
pub struct ReportArgs {
    pub range: u32,
    pub markdown: bool,
}

#[derive(Debug)]
pub struct WatchArgs {
    pub interval: u64,
    pub range: u32,
}

#[derive(Debug)]
pub struct ExportArgs {
    pub directory: String,
    pub from: Option<String>,
    pub to: Option<String>,
}

#[derive(Debug)]
pub struct CompletionsArgs {
    pub shell: Shell,
}

#[derive(Debug, Clone, Copy, PartialEq, Eq)]
pub enum HttpMethod {
    Get,
    Post,
    Patch,
    Delete,
}

#[derive(Debug)]
pub struct ApiArgs {
    pub method: HttpMethod,
    pub path: String,
    pub query: Vec<String>,
    pub body: Option<String>,
}

} // verus!
