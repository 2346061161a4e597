//! The REST operations of the API that the client's commands cover.
use vstd::prelude::*;

verus! {

/// Each REST operation the commands send, as method and path template.
pub const SUPPORTED_REST_OPERATIONS: [(&'static str, &'static str); 71] = [
    ("GET", "/ping"),
    ("GET", "/metrics/timeseries"),
    ("GET", "/metrics/summary"),
    ("GET", "/metrics/prompt_summary"),
    ("GET", "/metrics/sov"),
    ("GET", "/metrics/top_sources"),
    ("GET", "/metrics/agent_traffic"),
    ("GET", "/metrics/ai_traffic"),
    ("GET", "/search_console/summary"),
    ("GET", "/search_console/timeseries"),
    ("GET", "/search_console/queries"),
    ("GET", "/search_console/pages"),
    ("GET", "/dimensions/projects"),
    ("GET", "/dimensions/projects/{id}"),
    ("GET", "/dimensions/competitors"),
    ("GET", "/dimensions/competitors/{id}"),
    ("GET", "/dimensions/collections"),
    ("GET", "/dimensions/tags"),
    ("GET", "/dimensions/models"),
    ("GET", "/dimensions/locales"),
    ("GET", "/dimensions/sentiments"),
    ("GET", "/dimensions/prompts"),
    ("GET", "/dimensions/prompt_executions"),
    ("GET", "/dimensions/sources"),
    ("GET", "/dimensions/mentions"),
    ("GET", "/dimensions/citations"),
    ("GET", "/dimensions/competitor_mentions"),
    ("GET", "/dimensions/competitor_citations"),
    ("GET", "/dimensions/all_mentions"),
    ("GET", "/dimensions/all_citations"),
    ("GET", "/dimensions/agent_bots"),
    ("GET", "/citation_intelligence/groups"),
    ("GET", "/citation_intelligence/mentions_by_domain"),
    ("GET", "/citation_intelligence/urls/{url_sha256}"),
    ("GET", "/citation_intelligence/urls/{url_sha256}/occurrences"),
    ("GET", "/citation_intelligence/urls/{url_sha256}/content"),
    ("GET", "/reports/ai_model_insights/summary"),
    ("GET", "/reports/ai_model_insights/position_distribution"),
    ("GET", "/reports/ai_model_insights/ai_overview_results"),
    ("GET", "/answers"),
    ("GET", "/answers/{id}"),
    ("GET", "/sentiments"),
    ("GET", "/recommendations"),
    ("POST", "/recommendations"),
    ("GET", "/recommendations/{id}"),
    ("POST", "/project_drafts"),
    ("GET", "/project_drafts/{id}"),
    ("PATCH", "/project_drafts/{id}"),
    ("POST", "/project_drafts/{id}/finalize"),
    ("POST", "/projects"),
    ("POST", "/prompts"),
    ("DELETE", "/prompts/{id}"),
    ("POST", "/prompts/assign_tags"),
    ("POST", "/competitors"),
    ("PATCH", "/competitors/{id}"),
    ("DELETE", "/competitors/{id}"),
    ("POST", "/collections"),
    ("PATCH", "/collections/{id}"),
    ("DELETE", "/collections/{id}"),
    ("GET", "/annotations"),
    ("POST", "/annotations"),
    ("PATCH", "/annotations/{id}"),
    ("DELETE", "/annotations/{id}"),
    ("POST", "/technical_geo_reports"),
    ("GET", "/intelligence_tasks"),
    ("POST", "/intelligence_tasks"),
    ("GET", "/intelligence_tasks/{id}"),
    ("GET", "/webhooks"),
    ("POST", "/webhooks"),
    ("DELETE", "/webhooks/{id}"),
    ("GET", "/webhooks/sample/{event_type}"),
];

} // verus!
