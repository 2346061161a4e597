//! What each command asks of the API: method, path, query, body, and how the
//! answer is printed. The requests are planned here; the program around the
//! library sends them.
use vstd::prelude::*;

use crate::cli::{
    ExportArgs,
    Command,
    AnnotationUpdateArgs, CollectionCreateArgs, CollectionUpdateArgs,
    ProjectCreateArgs, ProjectDraftStartArgs,
    CompetitorCreateArgs, CompetitorUpdateArgs, PromptAssignTagsArgs, PromptCreateArgs,
    IntelligenceTaskCreateArgs,
    AnnotationsCommand, AnswersCommand, ApiArgs, CitationFilterArgs, CitationsCommand,
    CollectionsCommand, CompetitorsCommand, CompetitorsDimensionCommand, DateArgs,
    DimensionListArgs, DimensionsCommand, FilterArgs, GlobalArgs, HttpMethod,
    IntelligenceTasksCommand, MetricArgs, MetricsCommand, AiModelArgs, ProjectsCommand,
    ProjectsDimensionCommand, PromptsCommand, RecommendationsCommand, ReportsCommand,
    SearchConsoleCommand, SentimentsCommand, WebhooksCommand,
};
use crate::client::{project_id, project_required_message};
use crate::error::{opt_view, usage, CliError, ErrorV};
use crate::json::{str_eq, Json, JsonNumber, JsonV, NumberV};
use crate::output::{entries_view, lemma_object_view, seq_views};
use crate::query::{bool_pair, opt_pair, opt_text, push_pair, query_view, Query, QueryExt, QueryValue};
use crate::text::{decimal, texts, u64_to_string};

verus! {

/* ---------------------------------------------------------------------- */
/* Building queries                                                        */
/* ---------------------------------------------------------------------- */

/// The pair naming the project.
pub open spec fn project_pairs(id: u64) -> Seq<(Seq<char>, Seq<char>)> {
    seq![("project_id"@, decimal(id as nat))]
}

/// The query naming the project; the project is required.
pub fn project_query(project: Option<u64>) -> (r: Result<Query, CliError>)
    ensures
        r matches Ok(q) ==> project matches Some(id) && query_view(q@) == project_pairs(id),
        r matches Err(e) ==> e@ == ErrorV::Usage(project_required_message()),
        r is Ok <==> project is Some,
{
    match project_id(project) {
        Ok(id) => Ok(query_for(id)),
        Err(e) => Err(e),
    }
}

/// The query naming a given project.
fn query_for(id: u64) -> (q: Query)
    ensures
        query_view(q@) == project_pairs(id),
{
    let mut q: Query = Vec::new();
    push_pair(&mut q, "project_id", u64_to_string(id));
    assert(query_view(q@) =~= project_pairs(id));
    q
}

/// The pairs a date range adds: `range` (when asked for), `from`, `to`.
pub open spec fn dates_pairs(d: DateArgs, include_range: bool) -> Seq<(Seq<char>, Seq<char>)> {
    (if include_range { opt_pair("range"@, opt_text(d.range)) } else { Seq::empty() })
        + opt_pair("from"@, opt_view(d.from)) + opt_pair("to"@, opt_view(d.to))
}

/// A copy of an optional string.
fn copy_str(o: &Option<String>) -> (r: Option<String>)
    ensures
        opt_view(r) == opt_view(*o),
        opt_text(r) == opt_view(*o),
{
    crate::config::copy_opt(o)
}

/// Adds a date range.
pub fn add_dates(query: &mut Query, dates: &DateArgs, include_range: bool)
    ensures
        query_view(final(query)@) == query_view(old(query)@) + dates_pairs(*dates, include_range),
{
    let ghost start = query_view(query@);
    if include_range {
        query.push_opt("range", dates.range);
    }
    query.push_opt("from", copy_str(&dates.from));
    query.push_opt("to", copy_str(&dates.to));
    assert(query_view(query@) =~= start + dates_pairs(*dates, include_range));
}

/// The pairs the common filters add.
pub open spec fn filters_pairs(f: FilterArgs, include_range: bool) -> Seq<(Seq<char>, Seq<char>)> {
    opt_pair("model"@, opt_view(f.model)) + opt_pair("collection_id"@, opt_text(f.collection_id))
        + opt_pair("country_code"@, opt_view(f.country_code)) + opt_pair("language_code"@, opt_view(f.language_code))
        + opt_pair("prompt"@, opt_text(f.prompt)) + dates_pairs(f.dates, include_range)
}

/// Adds the common filters.
pub fn add_filters(query: &mut Query, filters: &FilterArgs, include_range: bool)
    ensures
        query_view(final(query)@) == query_view(old(query)@) + filters_pairs(*filters, include_range),
{
    let ghost start = query_view(query@);
    query.push_opt("model", copy_str(&filters.model));
    query.push_opt("collection_id", filters.collection_id);
    query.push_opt("country_code", copy_str(&filters.country_code));
    query.push_opt("language_code", copy_str(&filters.language_code));
    query.push_opt("prompt", filters.prompt);
    add_dates(query, &filters.dates, include_range);
    assert(query_view(query@) =~= start + filters_pairs(*filters, include_range));
}

/// The pairs pagination adds.
pub open spec fn pagination_pairs(g: GlobalArgs) -> Seq<(Seq<char>, Seq<char>)> {
    opt_pair("page"@, opt_text(g.page)) + opt_pair("per_page"@, opt_text(g.per_page))
}

/// Adds the page and page size asked for.
pub fn add_pagination(query: &mut Query, global: &GlobalArgs)
    ensures
        query_view(final(query)@) == query_view(old(query)@) + pagination_pairs(*global),
{
    let ghost start = query_view(query@);
    query.push_opt("page", global.page);
    query.push_opt("per_page", global.per_page);
    assert(query_view(query@) =~= start + pagination_pairs(*global));
}

/// Texts joined by commas.
pub open spec fn join_commas(items: Seq<Seq<char>>) -> Seq<char>
    decreases items.len(),
{
    if items.len() == 0 {
        Seq::empty()
    } else if items.len() == 1 {
        items[0]
    } else {
        join_commas(items.drop_last()) + ","@ + items.last()
    }
}

/// The texts of a list of query values.
pub open spec fn value_texts<T: QueryValue>(values: Seq<T>) -> Seq<Seq<char>> {
    values.map_values(|v: T| v.query_text())
}

/// The pair a list adds: `(key, "a,b,...")` when the list is not empty.
pub open spec fn csv_pair(key: Seq<char>, items: Seq<Seq<char>>) -> Seq<(Seq<char>, Seq<char>)> {
    if items.len() == 0 { Seq::empty() } else { seq![(key, join_commas(items))] }
}

/// Adds a list as one comma-separated value, when it is not empty.
pub fn add_csv_values<T: QueryValue>(query: &mut Query, key: &str, values: &Vec<T>)
    ensures
        query_view(final(query)@) == query_view(old(query)@) + csv_pair(key@, value_texts(values@)),
{
    if values.len() == 0 {
        assert(query_view(query@) =~= query_view(old(query)@) + csv_pair(key@, value_texts(values@)));
        return;
    }
    let ghost items = value_texts(values@);
    let mut joined = values[0].to_query_text();
    let mut i: usize = 1;
    assert(items.subrange(0, 1) =~= seq![items[0]]);
    while i < values.len()
        invariant
            items == value_texts(values@),
            1 <= i <= values@.len(),
            joined@ == join_commas(items.subrange(0, i as int)),
        decreases values@.len() - i,
    {
        let next = values[i].to_query_text();
        joined.append(",");
        joined.append(next.as_str());
        assert(items.subrange(0, i + 1).drop_last() =~= items.subrange(0, i as int));
        i = i + 1;
    }
    assert(items.subrange(0, values@.len() as int) == items);
    push_pair(query, key, joined);
    assert(query_view(query@) =~= query_view(old(query)@) + csv_pair(key@, value_texts(values@)));
}

/* ---------------------------------------------------------------------- */
/* Request bodies                                                          */
/* ---------------------------------------------------------------------- */

/// A number as JSON.
pub open spec fn jnum(n: u64) -> JsonV {
    JsonV::Number(NumberV::PosInt(n))
}

/// An optional string as JSON: `null` when absent.
pub open spec fn jopt_str(o: Option<Seq<char>>) -> JsonV {
    match o {
        Some(s) => JsonV::Str(s),
        None => JsonV::Null,
    }
}

/// An optional number as JSON: `null` when absent.
pub open spec fn jopt_num(o: Option<u64>) -> JsonV {
    match o {
        Some(n) => jnum(n),
        None => JsonV::Null,
    }
}

/// A list of texts as a JSON array of strings.
pub open spec fn jstrings(items: Seq<Seq<char>>) -> JsonV {
    JsonV::Array(items.map_values(|s: Seq<char>| JsonV::Str(s)))
}

/// A list of numbers as a JSON array.
pub open spec fn jnums(items: Seq<u64>) -> JsonV {
    JsonV::Array(items.map_values(|n: u64| jnum(n)))
}

/// A list that is `null` when empty (`optional_vec`).
pub open spec fn optional_array(empty: bool, array: JsonV) -> JsonV {
    if empty { JsonV::Null } else { array }
}

/// A number as JSON.
fn json_num(n: u64) -> (r: Json)
    ensures
        r@ == jnum(n),
{
    Json::Number(JsonNumber::PosInt(n))
}

/// A string as JSON.
fn json_str(s: &String) -> (r: Json)
    ensures
        r@ == JsonV::Str(s@),
{
    Json::String(s.clone())
}

/// An optional string as JSON.
fn json_opt_str(o: &Option<String>) -> (r: Json)
    ensures
        r@ == jopt_str(opt_view(*o)),
{
    match o {
        Some(s) => Json::String(s.clone()),
        None => Json::Null,
    }
}

/// An optional number as JSON.
fn json_opt_num(o: Option<u64>) -> (r: Json)
    ensures
        r@ == jopt_num(o),
{
    match o {
        Some(n) => Json::Number(JsonNumber::PosInt(n)),
        None => Json::Null,
    }
}

/// A list of strings as JSON.
fn json_strings(items: &Vec<String>) -> (r: Json)
    ensures
        r@ == jstrings(texts(items@)),
{
    let mut out: Vec<Json> = Vec::new();
    let mut i: usize = 0;
    while i < items.len()
        invariant
            i <= items@.len(),
            seq_views(out@) == texts(items@).subrange(0, i as int).map_values(|s: Seq<char>| JsonV::Str(s)),
        decreases items@.len() - i,
    {
        let ghost before = seq_views(out@);
        out.push(Json::String(items[i].clone()));
        proof {
            let t = texts(items@);
            assert(t[i as int] == items@[i as int]@);
            assert(seq_views(out@) =~= before.push(JsonV::Str(t[i as int])));
            assert(t.subrange(0, i + 1) =~= t.subrange(0, i as int).push(t[i as int]));
            assert(t.subrange(0, i + 1).map_values(|s: Seq<char>| JsonV::Str(s))
                =~= t.subrange(0, i as int).map_values(|s: Seq<char>| JsonV::Str(s)).push(JsonV::Str(t[i as int])));
        }
        i = i + 1;
    }
    assert(texts(items@).subrange(0, items@.len() as int) == texts(items@));
    proof { crate::output::lemma_array_view(out); }
    Json::Array(out)
}

/// A list of numbers as JSON.
fn json_nums(items: &Vec<u64>) -> (r: Json)
    ensures
        r@ == jnums(items@),
{
    let mut out: Vec<Json> = Vec::new();
    let mut i: usize = 0;
    while i < items.len()
        invariant
            i <= items@.len(),
            seq_views(out@) == items@.subrange(0, i as int).map_values(|n: u64| jnum(n)),
        decreases items@.len() - i,
    {
        let ghost before = seq_views(out@);
        out.push(Json::Number(JsonNumber::PosInt(items[i])));
        proof {
            let t = items@;
            assert(seq_views(out@) =~= before.push(jnum(t[i as int])));
            assert(t.subrange(0, i + 1) =~= t.subrange(0, i as int).push(t[i as int]));
            assert(t.subrange(0, i + 1).map_values(|n: u64| jnum(n))
                =~= t.subrange(0, i as int).map_values(|n: u64| jnum(n)).push(jnum(t[i as int])));
        }
        i = i + 1;
    }
    assert(items@.subrange(0, items@.len() as int) == items@);
    proof { crate::output::lemma_array_view(out); }
    Json::Array(out)
}

/// A list of strings as JSON, `null` when empty.
fn optional_strings(items: &Vec<String>) -> (r: Json)
    ensures
        r@ == optional_array(items@.len() == 0, jstrings(texts(items@))),
{
    if items.len() == 0 { Json::Null } else { json_strings(items) }
}

/// A list of numbers as JSON, `null` when empty.
fn optional_nums(items: &Vec<u64>) -> (r: Json)
    ensures
        r@ == optional_array(items@.len() == 0, jnums(items@)),
{
    if items.len() == 0 { Json::Null } else { json_nums(items) }
}

/// Adds a member to an object under construction.
fn put(entries: &mut Vec<(String, Json)>, key: &str, value: Json)
    ensures
        entries_view(final(entries)@) == entries_view(old(entries)@).push((key@, value@)),
{
    entries.push((String::from_str(key), value));
    assert(entries_view(entries@) =~= entries_view(old(entries)@).push((key@, value@)));
}

/// An object from its members.
fn object(entries: Vec<(String, Json)>) -> (r: Json)
    ensures
        r@ == JsonV::Object(entries_view(entries@)),
{
    proof { lemma_object_view(entries); }
    Json::Object(entries)
}

/* ---------------------------------------------------------------------- */
/* Request plans                                                           */
/* ---------------------------------------------------------------------- */

/// How the answer to a request is printed.
#[derive(Debug, Clone, Copy, PartialEq, Eq)]
pub enum Delivery {
    /// The whole response.
    Single,
    /// The rows of a list response, then its pagination note.
    List,
    /// Every page of a list, fetched in turn, printed as one array.
    FetchAll,
}

/// One request a command sends.
#[derive(Debug)]
pub struct RequestPlan {
    pub method: HttpMethod,
    pub path: String,
    pub query: Query,
    pub body: Option<Json>,
    pub delivery: Delivery,
}

/// The content of a [`RequestPlan`].
pub struct PlanV {
    pub method: HttpMethod,
    pub path: Seq<char>,
    pub query: Seq<(Seq<char>, Seq<char>)>,
    pub body: Option<JsonV>,
    pub delivery: Delivery,
}

impl View for RequestPlan {
    type V = PlanV;

    open spec fn view(&self) -> PlanV {
        PlanV {
            method: self.method,
            path: self.path@,
            query: query_view(self.query@),
            body: match self.body {
                Some(b) => Some(b@),
                None => None,
            },
            delivery: self.delivery,
        }
    }
}

/// A `GET` whose whole response is printed.
pub open spec fn get_spec(path: Seq<char>, query: Seq<(Seq<char>, Seq<char>)>) -> PlanV {
    PlanV { method: HttpMethod::Get, path, query, body: None, delivery: Delivery::Single }
}

/// A `GET` of a list: every page with `--all`, else the page asked for.
pub open spec fn list_spec(path: Seq<char>, query: Seq<(Seq<char>, Seq<char>)>, g: GlobalArgs) -> PlanV {
    if g.all {
        PlanV { method: HttpMethod::Get, path, query, body: None, delivery: Delivery::FetchAll }
    } else {
        PlanV { method: HttpMethod::Get, path, query: query + pagination_pairs(g), body: None, delivery: Delivery::List }
    }
}

/// A request with a JSON body.
pub open spec fn body_spec(method: HttpMethod, path: Seq<char>, body: JsonV) -> PlanV {
    PlanV { method, path, query: Seq::empty(), body: Some(body), delivery: Delivery::Single }
}

/// A `DELETE` with a query.
pub open spec fn delete_spec(path: Seq<char>, query: Seq<(Seq<char>, Seq<char>)>) -> PlanV {
    PlanV { method: HttpMethod::Delete, path, query, body: None, delivery: Delivery::Single }
}

/// The content of a planned request, or the error.
pub open spec fn plan_result(r: Result<RequestPlan, CliError>) -> Result<PlanV, ErrorV> {
    crate::error::res_view(r)
}

fn plan_get(path: String, query: Query) -> (r: RequestPlan)
    ensures
        r@ == get_spec(path@, query_view(query@)),
{
    RequestPlan { method: HttpMethod::Get, path, query, body: None, delivery: Delivery::Single }
}

fn plan_list(path: String, query: Query, g: &GlobalArgs) -> (r: RequestPlan)
    ensures
        r@ == list_spec(path@, query_view(query@), *g),
{
    if g.all {
        RequestPlan { method: HttpMethod::Get, path, query, body: None, delivery: Delivery::FetchAll }
    } else {
        let mut q = query;
        add_pagination(&mut q, g);
        RequestPlan { method: HttpMethod::Get, path, query: q, body: None, delivery: Delivery::List }
    }
}

fn plan_body(method: HttpMethod, path: String, body: Json) -> (r: RequestPlan)
    ensures
        r@ == body_spec(method, path@, body@),
{
    let q: Query = Vec::new();
    assert(query_view(q@) =~= Seq::<(Seq<char>, Seq<char>)>::empty());
    RequestPlan { method, path, query: q, body: Some(body), delivery: Delivery::Single }
}

fn plan_delete(path: String, query: Query) -> (r: RequestPlan)
    ensures
        r@ == delete_spec(path@, query_view(query@)),
{
    RequestPlan { method: HttpMethod::Delete, path, query, body: None, delivery: Delivery::Single }
}

/// An empty query.
fn no_query() -> (q: Query)
    ensures
        query_view(q@) == Seq::<(Seq<char>, Seq<char>)>::empty(),
{
    let q: Query = Vec::new();
    assert(query_view(q@) =~= Seq::<(Seq<char>, Seq<char>)>::empty());
    q
}

/// A path from a literal.
fn path(p: &str) -> (r: String)
    ensures
        r@ == p@,
{
    String::from_str(p)
}

/// A path ending in a numeric ID.
fn path_id(prefix: &str, id: u64) -> (r: String)
    ensures
        r@ == prefix@ + decimal(id as nat),
{
    let mut p = String::from_str(prefix);
    p.append(u64_to_string(id).as_str());
    p
}

/// A path with a text segment and a suffix.
fn path_text(prefix: &str, segment: &String, suffix: &str) -> (r: String)
    ensures
        r@ == prefix@ + segment@ + suffix@,
{
    let mut p = String::from_str(prefix);
    p.append(segment.as_str());
    p.append(suffix);
    p
}

/// A path ending in a text segment.
fn path_with(prefix: &str, segment: &String) -> (r: String)
    ensures
        r@ == prefix@ + segment@,
{
    let mut p = String::from_str(prefix);
    p.append(segment.as_str());
    p
}

/// The error for a command that needs a project but has none.
pub open spec fn no_project() -> ErrorV {
    ErrorV::Usage(project_required_message())
}

/* Dimensions ----------------------------------------------------------- */

/// A dimension listing: the project, the filters (no range), the
/// competitors and the brand flag.
pub open spec fn dimension_list_spec(path: Seq<char>, args: DimensionListArgs, g: GlobalArgs, project: Option<u64>) -> Result<PlanV, ErrorV> {
    match project {
        None => Err(no_project()),
        Some(id) => Ok(list_spec(
            path,
            project_pairs(id) + filters_pairs(args.filters, false) + csv_pair("competitors"@, value_texts(args.competitors@))
                + bool_pair("include_project_brand"@, args.include_project_brand),
            g,
        )),
    }
}

fn dimension_list(p: &str, args: &DimensionListArgs, g: &GlobalArgs, project: Option<u64>) -> (r: Result<RequestPlan, CliError>)
    ensures
        plan_result(r) == dimension_list_spec(p@, *args, *g, project),
{
    let mut q = match project_query(project) {
        Ok(q) => q,
        Err(e) => return Err(e),
    };
    add_filters(&mut q, &args.filters, false);
    add_csv_values(&mut q, "competitors", &args.competitors);
    q.push_bool("include_project_brand", args.include_project_brand);
    Ok(plan_list(path(p), q, g))
}

/// What a `dimensions` command asks for.
pub open spec fn dimensions_spec(cmd: DimensionsCommand, g: GlobalArgs, project: Option<u64>) -> Result<PlanV, ErrorV> {
    match cmd {
        DimensionsCommand::Projects { command } => match command {
            ProjectsDimensionCommand::List => Ok(list_spec("/dimensions/projects"@, Seq::empty(), g)),
            ProjectsDimensionCommand::Get { id } => Ok(get_spec("/dimensions/projects/"@ + decimal(id as nat), Seq::empty())),
        },
        DimensionsCommand::Competitors { command } => match command {
            CompetitorsDimensionCommand::List(args) => dimension_list_spec("/dimensions/competitors"@, args, g, project),
            CompetitorsDimensionCommand::Get { id } => Ok(get_spec("/dimensions/competitors/"@ + decimal(id as nat), Seq::empty())),
        },
        DimensionsCommand::Collections(args) => dimension_list_spec("/dimensions/collections"@, args, g, project),
        DimensionsCommand::Tags(args) => dimension_list_spec("/dimensions/tags"@, args, g, project),
        DimensionsCommand::Models(args) => dimension_list_spec("/dimensions/models"@, args, g, project),
        DimensionsCommand::Locales(args) => dimension_list_spec("/dimensions/locales"@, args, g, project),
        DimensionsCommand::Sentiments(args) => dimension_list_spec("/dimensions/sentiments"@, args, g, project),
        DimensionsCommand::Prompts(args) => dimension_list_spec("/dimensions/prompts"@, args, g, project),
        DimensionsCommand::Executions(args) => dimension_list_spec("/dimensions/prompt_executions"@, args, g, project),
        DimensionsCommand::Sources(args) => dimension_list_spec("/dimensions/sources"@, args, g, project),
        DimensionsCommand::Mentions(args) => dimension_list_spec("/dimensions/mentions"@, args, g, project),
        DimensionsCommand::Citations(args) => dimension_list_spec("/dimensions/citations"@, args, g, project),
        DimensionsCommand::CompetitorMentions(args) => dimension_list_spec("/dimensions/competitor_mentions"@, args, g, project),
        DimensionsCommand::CompetitorCitations(args) => dimension_list_spec("/dimensions/competitor_citations"@, args, g, project),
        DimensionsCommand::AllMentions(args) => dimension_list_spec("/dimensions/all_mentions"@, args, g, project),
        DimensionsCommand::AllCitations(args) => dimension_list_spec("/dimensions/all_citations"@, args, g, project),
        DimensionsCommand::AgentBots => Ok(get_spec("/dimensions/agent_bots"@, Seq::empty())),
    }
}

/// Plans a `dimensions` command.
pub fn run_dimensions(cmd: &DimensionsCommand, g: &GlobalArgs, project: Option<u64>) -> (r: Result<RequestPlan, CliError>)
    ensures
        plan_result(r) == dimensions_spec(*cmd, *g, project),
{
    match cmd {
        DimensionsCommand::Projects { command } => match command {
            ProjectsDimensionCommand::List => Ok(plan_list(path("/dimensions/projects"), no_query(), g)),
            ProjectsDimensionCommand::Get { id } => Ok(plan_get(path_id("/dimensions/projects/", *id), no_query())),
        },
        DimensionsCommand::Competitors { command } => match command {
            CompetitorsDimensionCommand::List(args) => dimension_list("/dimensions/competitors", args, g, project),
            CompetitorsDimensionCommand::Get { id } => Ok(plan_get(path_id("/dimensions/competitors/", *id), no_query())),
        },
        DimensionsCommand::Collections(args) => dimension_list("/dimensions/collections", args, g, project),
        DimensionsCommand::Tags(args) => dimension_list("/dimensions/tags", args, g, project),
        DimensionsCommand::Models(args) => dimension_list("/dimensions/models", args, g, project),
        DimensionsCommand::Locales(args) => dimension_list("/dimensions/locales", args, g, project),
        DimensionsCommand::Sentiments(args) => dimension_list("/dimensions/sentiments", args, g, project),
        DimensionsCommand::Prompts(args) => dimension_list("/dimensions/prompts", args, g, project),
        DimensionsCommand::Executions(args) => dimension_list("/dimensions/prompt_executions", args, g, project),
        DimensionsCommand::Sources(args) => dimension_list("/dimensions/sources", args, g, project),
        DimensionsCommand::Mentions(args) => dimension_list("/dimensions/mentions", args, g, project),
        DimensionsCommand::Citations(args) => dimension_list("/dimensions/citations", args, g, project),
        DimensionsCommand::CompetitorMentions(args) => dimension_list("/dimensions/competitor_mentions", args, g, project),
        DimensionsCommand::CompetitorCitations(args) => dimension_list("/dimensions/competitor_citations", args, g, project),
        DimensionsCommand::AllMentions(args) => dimension_list("/dimensions/all_mentions", args, g, project),
        DimensionsCommand::AllCitations(args) => dimension_list("/dimensions/all_citations", args, g, project),
        DimensionsCommand::AgentBots => Ok(plan_get(path("/dimensions/agent_bots"), no_query())),
    }
}

/* Metrics and Search Console ------------------------------------------- */

/// The query of a metric: the project, the filters (with range), the
/// metrics, granularity, competitors, the project flag and grouping.
pub open spec fn metric_query_spec(args: MetricArgs, id: u64) -> Seq<(Seq<char>, Seq<char>)> {
    project_pairs(id) + filters_pairs(args.filters, true) + csv_pair("metrics"@, value_texts(args.metrics@))
        + opt_pair("granularity"@, opt_view(args.granularity)) + csv_pair("competitors"@, value_texts(args.competitors@))
        + bool_pair("include_project"@, args.include_project) + opt_pair("group_by"@, opt_view(args.group_by))
}

/// Builds the query of a metric.
pub fn metric_query(args: &MetricArgs, project: Option<u64>) -> (r: Result<Query, CliError>)
    ensures
        r matches Ok(q) ==> project matches Some(id) && query_view(q@) == metric_query_spec(*args, id),
        r matches Err(e) ==> project is None && e@ == no_project(),
{
    let mut q = match project_query(project) {
        Ok(q) => q,
        Err(e) => return Err(e),
    };
    add_filters(&mut q, &args.filters, true);
    add_csv_values(&mut q, "metrics", &args.metrics);
    q.push_opt("granularity", copy_str(&args.granularity));
    add_csv_values(&mut q, "competitors", &args.competitors);
    q.push_bool("include_project", args.include_project);
    q.push_opt("group_by", copy_str(&args.group_by));
    Ok(q)
}

/// The query of an AI model report: the project, the filters (with range),
/// granularity, competitors and the two brands.
pub open spec fn ai_model_query_spec(args: AiModelArgs, id: u64) -> Seq<(Seq<char>, Seq<char>)> {
    project_pairs(id) + filters_pairs(args.filters, true) + opt_pair("granularity"@, opt_view(args.granularity))
        + csv_pair("competitors"@, value_texts(args.competitors@)) + opt_pair("brand1"@, opt_text(args.brand1))
        + opt_pair("brand2"@, opt_text(args.brand2))
}

/// An AI model report, printed whole or as a list.
pub open spec fn ai_model_spec(p: Seq<char>, args: AiModelArgs, list: bool, g: GlobalArgs, project: Option<u64>) -> Result<PlanV, ErrorV> {
    match project {
        None => Err(no_project()),
        Some(id) => Ok(if list {
            list_spec(p, ai_model_query_spec(args, id), g)
        } else {
            get_spec(p, ai_model_query_spec(args, id))
        }),
    }
}

fn ai_model_get(p: &str, args: &AiModelArgs, list: bool, g: &GlobalArgs, project: Option<u64>) -> (r: Result<RequestPlan, CliError>)
    ensures
        plan_result(r) == ai_model_spec(p@, *args, list, *g, project),
{
    let mut q = match project_query(project) {
        Ok(q) => q,
        Err(e) => return Err(e),
    };
    add_filters(&mut q, &args.filters, true);
    q.push_opt("granularity", copy_str(&args.granularity));
    add_csv_values(&mut q, "competitors", &args.competitors);
    q.push_opt("brand1", args.brand1);
    q.push_opt("brand2", args.brand2);
    if list {
        Ok(plan_list(path(p), q, g))
    } else {
        Ok(plan_get(path(p), q))
    }
}

/// A metric printed whole.
pub open spec fn metric_spec(p: Seq<char>, args: MetricArgs, project: Option<u64>) -> Result<PlanV, ErrorV> {
    match project {
        None => Err(no_project()),
        Some(id) => Ok(get_spec(p, metric_query_spec(args, id))),
    }
}

fn metric_get(p: &str, args: &MetricArgs, project: Option<u64>) -> (r: Result<RequestPlan, CliError>)
    ensures
        plan_result(r) == metric_spec(p@, *args, project),
{
    match metric_query(args, project) {
        Ok(q) => Ok(plan_get(path(p), q)),
        Err(e) => Err(e),
    }
}

/// What a `metrics` command asks for.
pub open spec fn metrics_spec(cmd: MetricsCommand, g: GlobalArgs, project: Option<u64>) -> Result<PlanV, ErrorV> {
    match cmd {
        MetricsCommand::Timeseries(args) => metric_spec("/metrics/timeseries"@, args, project),
        MetricsCommand::Summary(args) => metric_spec("/metrics/summary"@, args, project),
        MetricsCommand::Sov(args) => metric_spec("/metrics/sov"@, args, project),
        MetricsCommand::PromptSummary(args) => match project {
            None => Err(no_project()),
            Some(id) => Ok(list_spec(
                "/metrics/prompt_summary"@,
                metric_query_spec(args.metrics, id) + opt_pair("sort"@, opt_view(args.sort))
                    + opt_pair("sort_dir"@, Some(args.sort_dir@)) + opt_pair("breakdown"@, opt_view(args.breakdown)),
                g,
            )),
        },
        MetricsCommand::TopSources(args) => match project {
            None => Err(no_project()),
            Some(id) => Ok(list_spec(
                "/metrics/top_sources"@,
                metric_query_spec(args.metrics, id) + opt_pair("sort"@, opt_view(args.sort))
                    + opt_pair("query"@, opt_view(args.query)),
                g,
            )),
        },
        MetricsCommand::AgentTraffic(args) => match project {
            None => Err(no_project()),
            Some(id) => Ok(get_spec(
                "/metrics/agent_traffic"@,
                project_pairs(id) + dates_pairs(args.dates, true) + opt_pair("bot"@, opt_view(args.bot))
                    + opt_pair("company"@, opt_view(args.company)) + opt_pair("group_by"@, opt_view(args.group_by))
                    + opt_pair("granularity"@, opt_view(args.granularity)),
            )),
        },
        MetricsCommand::AiTraffic(args) => match project {
            None => Err(no_project()),
            Some(id) => Ok(get_spec(
                "/metrics/ai_traffic"@,
                project_pairs(id) + dates_pairs(args.dates, true) + opt_pair("source"@, opt_view(args.source))
                    + opt_pair("granularity"@, opt_view(args.granularity)),
            )),
        },
        MetricsCommand::AiModelSummary(args) => ai_model_spec("/reports/ai_model_insights/summary"@, args, false, g, project),
        MetricsCommand::AiModelPositions(args) => ai_model_spec(
            "/reports/ai_model_insights/position_distribution"@,
            args,
            false,
            g,
            project,
        ),
        MetricsCommand::AiOverviewResults(args) => ai_model_spec(
            "/reports/ai_model_insights/ai_overview_results"@,
            args,
            true,
            g,
            project,
        ),
    }
}

/// Plans a `metrics` command.
pub fn run_metrics(cmd: &MetricsCommand, g: &GlobalArgs, project: Option<u64>) -> (r: Result<RequestPlan, CliError>)
    ensures
        plan_result(r) == metrics_spec(*cmd, *g, project),
{
    match cmd {
        MetricsCommand::Timeseries(args) => metric_get("/metrics/timeseries", args, project),
        MetricsCommand::Summary(args) => metric_get("/metrics/summary", args, project),
        MetricsCommand::Sov(args) => metric_get("/metrics/sov", args, project),
        MetricsCommand::PromptSummary(args) => {
            let mut q = match metric_query(&args.metrics, project) {
                Ok(q) => q,
                Err(e) => return Err(e),
            };
            q.push_opt("sort", copy_str(&args.sort));
            q.push_opt("sort_dir", Some(args.sort_dir.clone()));
            q.push_opt("breakdown", copy_str(&args.breakdown));
            Ok(plan_list(path("/metrics/prompt_summary"), q, g))
        },
        MetricsCommand::TopSources(args) => {
            let mut q = match metric_query(&args.metrics, project) {
                Ok(q) => q,
                Err(e) => return Err(e),
            };
            q.push_opt("sort", copy_str(&args.sort));
            q.push_opt("query", copy_str(&args.query));
            Ok(plan_list(path("/metrics/top_sources"), q, g))
        },
        MetricsCommand::AgentTraffic(args) => {
            let mut q = match project_query(project) {
                Ok(q) => q,
                Err(e) => return Err(e),
            };
            add_dates(&mut q, &args.dates, true);
            q.push_opt("bot", copy_str(&args.bot));
            q.push_opt("company", copy_str(&args.company));
            q.push_opt("group_by", copy_str(&args.group_by));
            q.push_opt("granularity", copy_str(&args.granularity));
            Ok(plan_get(path("/metrics/agent_traffic"), q))
        },
        MetricsCommand::AiTraffic(args) => {
            let mut q = match project_query(project) {
                Ok(q) => q,
                Err(e) => return Err(e),
            };
            add_dates(&mut q, &args.dates, true);
            q.push_opt("source", copy_str(&args.source));
            q.push_opt("granularity", copy_str(&args.granularity));
            Ok(plan_get(path("/metrics/ai_traffic"), q))
        },
        MetricsCommand::AiModelSummary(args) => ai_model_get("/reports/ai_model_insights/summary", args, false, g, project),
        MetricsCommand::AiModelPositions(args) => ai_model_get(
            "/reports/ai_model_insights/position_distribution",
            args,
            false,
            g,
            project,
        ),
        MetricsCommand::AiOverviewResults(args) => ai_model_get(
            "/reports/ai_model_insights/ai_overview_results",
            args,
            true,
            g,
            project,
        ),
    }
}

/// The day range (`--range`) a `metrics` command was given.
pub open spec fn metrics_range(cmd: MetricsCommand) -> Option<u32> {
    match cmd {
        MetricsCommand::Timeseries(args) => args.filters.dates.range,
        MetricsCommand::Summary(args) => args.filters.dates.range,
        MetricsCommand::Sov(args) => args.filters.dates.range,
        MetricsCommand::PromptSummary(args) => args.metrics.filters.dates.range,
        MetricsCommand::TopSources(args) => args.metrics.filters.dates.range,
        MetricsCommand::AgentTraffic(args) => args.dates.range,
        MetricsCommand::AiTraffic(args) => args.dates.range,
        MetricsCommand::AiModelSummary(args) => args.filters.dates.range,
        MetricsCommand::AiModelPositions(args) => args.filters.dates.range,
        MetricsCommand::AiOverviewResults(args) => args.filters.dates.range,
    }
}

/// The query pair that sends a day range.
pub open spec fn range_pair(r: u32) -> (Seq<char>, Seq<char>) {
    ("range"@, decimal(r as nat))
}

/// Dates given a range send it, when the range is asked for.
proof fn lemma_dates_send_range(d: DateArgs, r: u32)
    requires
        d.range == Some(r),
    ensures
        dates_pairs(d, true).contains(range_pair(r)),
{
    broadcast use vstd::seq_lib::lemma_seq_concat_contains_all_elements;
    assert(decimal(r as nat).len() > 0);
    let first = opt_pair("range"@, opt_text(d.range));
    assert(first =~= seq![range_pair(r)]);
    assert(first[0] == range_pair(r));
}

/// Filters given a range send it, when the range is asked for.
proof fn lemma_filters_send_range(f: FilterArgs, r: u32)
    requires
        f.dates.range == Some(r),
    ensures
        filters_pairs(f, true).contains(range_pair(r)),
{
    broadcast use vstd::seq_lib::lemma_seq_concat_contains_all_elements;
    lemma_dates_send_range(f.dates, r);
}

/// Every metric report sends the day range it was given.
///
/// With a project, a `metrics` command given `--range r` (any of its
/// reports: metrics, prompt summary, top sources, agent and AI traffic, and
/// the AI model reports) plans a request whose query holds `range=r`.
pub proof fn law_metrics_send_range(cmd: MetricsCommand, g: GlobalArgs, id: u64, r: u32)
    requires
        metrics_range(cmd) == Some(r),
    ensures
        metrics_spec(cmd, g, Some(id)) is Ok,
        metrics_spec(cmd, g, Some(id))->Ok_0.query.contains(range_pair(r)),
{
    broadcast use vstd::seq_lib::lemma_seq_concat_contains_all_elements;
    match cmd {
        MetricsCommand::Timeseries(args) => lemma_filters_send_range(args.filters, r),
        MetricsCommand::Summary(args) => lemma_filters_send_range(args.filters, r),
        MetricsCommand::Sov(args) => lemma_filters_send_range(args.filters, r),
        MetricsCommand::PromptSummary(args) => lemma_filters_send_range(args.metrics.filters, r),
        MetricsCommand::TopSources(args) => lemma_filters_send_range(args.metrics.filters, r),
        MetricsCommand::AgentTraffic(args) => lemma_dates_send_range(args.dates, r),
        MetricsCommand::AiTraffic(args) => lemma_dates_send_range(args.dates, r),
        MetricsCommand::AiModelSummary(args) => lemma_filters_send_range(args.filters, r),
        MetricsCommand::AiModelPositions(args) => lemma_filters_send_range(args.filters, r),
        MetricsCommand::AiOverviewResults(args) => lemma_filters_send_range(args.filters, r),
    }
}

/// The filters a `metrics` command sends first, after the project: its
/// common filters, or for the traffic reports its dates, with the range.
pub open spec fn metrics_filter_pairs(cmd: MetricsCommand) -> Seq<(Seq<char>, Seq<char>)> {
    match cmd {
        MetricsCommand::Timeseries(args) => filters_pairs(args.filters, true),
        MetricsCommand::Summary(args) => filters_pairs(args.filters, true),
        MetricsCommand::Sov(args) => filters_pairs(args.filters, true),
        MetricsCommand::PromptSummary(args) => filters_pairs(args.metrics.filters, true),
        MetricsCommand::TopSources(args) => filters_pairs(args.metrics.filters, true),
        MetricsCommand::AgentTraffic(args) => dates_pairs(args.dates, true),
        MetricsCommand::AiTraffic(args) => dates_pairs(args.dates, true),
        MetricsCommand::AiModelSummary(args) => filters_pairs(args.filters, true),
        MetricsCommand::AiModelPositions(args) => filters_pairs(args.filters, true),
        MetricsCommand::AiOverviewResults(args) => filters_pairs(args.filters, true),
    }
}

/// `q` begins with the pairs `p`.
pub open spec fn query_starts_with(q: Seq<(Seq<char>, Seq<char>)>, p: Seq<(Seq<char>, Seq<char>)>) -> bool {
    p.len() <= q.len() && q.subrange(0, p.len() as int) == p
}

/// Pairs added after a query keep its beginning.
proof fn lemma_query_starts_with_grows()
    ensures
        forall|a: Seq<(Seq<char>, Seq<char>)>, b: Seq<(Seq<char>, Seq<char>)>, p: Seq<(Seq<char>, Seq<char>)>|
            query_starts_with(a, p) ==> #[trigger] query_starts_with(a + b, p),
{
    assert forall|a: Seq<(Seq<char>, Seq<char>)>, b: Seq<(Seq<char>, Seq<char>)>, p: Seq<(Seq<char>, Seq<char>)>|
        query_starts_with(a, p) implies #[trigger] query_starts_with(a + b, p) by {
        assert((a + b).subrange(0, p.len() as int) =~= a.subrange(0, p.len() as int));
    }
}

/// Every metric report sends the project, then all the filters it was given.
///
/// With a project, the query of a `metrics` command begins with the
/// project and then every filter given (model, collection, country,
/// language, prompt, range, from, to; the dates alone for the traffic
/// reports), in that order, before the options of the report itself.
pub proof fn law_metrics_send_filters(cmd: MetricsCommand, g: GlobalArgs, id: u64)
    ensures
        metrics_spec(cmd, g, Some(id)) is Ok,
        query_starts_with(metrics_spec(cmd, g, Some(id))->Ok_0.query, project_pairs(id) + metrics_filter_pairs(cmd)),
{
    lemma_query_starts_with_grows();
    let head = project_pairs(id) + metrics_filter_pairs(cmd);
    assert(head.subrange(0, head.len() as int) =~= head);
    assert(query_starts_with(head, head));
}

/// What a `search-console` command asks for: the project, the dates (with
/// range), dimension, granularity and sort; queries and pages are lists.
pub open spec fn search_console_spec(cmd: SearchConsoleCommand, g: GlobalArgs, project: Option<u64>) -> Result<PlanV, ErrorV> {
    let (p, args, list) = match cmd {
        SearchConsoleCommand::Summary(args) => ("/search_console/summary"@, args, false),
        SearchConsoleCommand::Timeseries(args) => ("/search_console/timeseries"@, args, false),
        SearchConsoleCommand::Queries(args) => ("/search_console/queries"@, args, true),
        SearchConsoleCommand::Pages(args) => ("/search_console/pages"@, args, true),
    };
    match project {
        None => Err(no_project()),
        Some(id) => {
            let q = project_pairs(id) + dates_pairs(args.dates, true) + opt_pair("dimension"@, opt_view(args.dimension))
                + opt_pair("granularity"@, opt_view(args.granularity)) + opt_pair("sort"@, opt_view(args.sort));
            Ok(if list { list_spec(p, q, g) } else { get_spec(p, q) })
        },
    }
}

/// Plans a `search-console` command.
pub fn run_search_console(cmd: &SearchConsoleCommand, g: &GlobalArgs, project: Option<u64>) -> (r: Result<RequestPlan, CliError>)
    ensures
        plan_result(r) == search_console_spec(*cmd, *g, project),
{
    let (p, args, list) = match cmd {
        SearchConsoleCommand::Summary(args) => ("/search_console/summary", args, false),
        SearchConsoleCommand::Timeseries(args) => ("/search_console/timeseries", args, false),
        SearchConsoleCommand::Queries(args) => ("/search_console/queries", args, true),
        SearchConsoleCommand::Pages(args) => ("/search_console/pages", args, true),
    };
    let mut q = match project_query(project) {
        Ok(q) => q,
        Err(e) => return Err(e),
    };
    add_dates(&mut q, &args.dates, true);
    q.push_opt("dimension", copy_str(&args.dimension));
    q.push_opt("granularity", copy_str(&args.granularity));
    q.push_opt("sort", copy_str(&args.sort));
    if list {
        Ok(plan_list(path(p), q, g))
    } else {
        Ok(plan_get(path(p), q))
    }
}


/* Citations, answers, sentiments ---------------------------------------- */

/// The query of a citation listing: the project, the filters (no range) and
/// the citation filters.
pub open spec fn citation_query_spec(args: CitationFilterArgs, id: u64) -> Seq<(Seq<char>, Seq<char>)> {
    project_pairs(id) + filters_pairs(args.filters, false) + opt_pair("view"@, opt_view(args.view))
        + opt_pair("query"@, opt_view(args.query)) + opt_pair("source_type"@, opt_view(args.source_type))
        + opt_pair("sentiment"@, opt_view(args.sentiment)) + opt_pair("content_gap"@, opt_view(args.content_gap))
}

/// Builds the query of a citation listing.
pub fn citation_query(args: &CitationFilterArgs, project: Option<u64>) -> (r: Result<Query, CliError>)
    ensures
        r matches Ok(q) ==> project matches Some(id) && query_view(q@) == citation_query_spec(*args, id),
        r matches Err(e) ==> project is None && e@ == no_project(),
{
    let mut q = match project_query(project) {
        Ok(q) => q,
        Err(e) => return Err(e),
    };
    add_filters(&mut q, &args.filters, false);
    q.push_opt("view", copy_str(&args.view));
    q.push_opt("query", copy_str(&args.query));
    q.push_opt("source_type", copy_str(&args.source_type));
    q.push_opt("sentiment", copy_str(&args.sentiment));
    q.push_opt("content_gap", copy_str(&args.content_gap));
    Ok(q)
}

/// One `domains[]` pair per domain, in order.
pub open spec fn domain_pairs(domains: Seq<Seq<char>>) -> Seq<(Seq<char>, Seq<char>)> {
    domains.map_values(|d: Seq<char>| ("domains[]"@, d))
}

/// Adds one `domains[]` pair per domain.
fn add_domains(query: &mut Query, domains: &Vec<String>)
    ensures
        query_view(final(query)@) == query_view(old(query)@) + domain_pairs(texts(domains@)),
{
    let ghost start = query_view(query@);
    let mut i: usize = 0;
    while i < domains.len()
        invariant
            i <= domains@.len(),
            query_view(query@) == start + domain_pairs(texts(domains@).subrange(0, i as int)),
        decreases domains@.len() - i,
    {
        push_pair(query, "domains[]", domains[i].clone());
        proof {
            let t = texts(domains@);
            assert(t.subrange(0, i + 1) =~= t.subrange(0, i as int).push(t[i as int]));
            assert(domain_pairs(t.subrange(0, i + 1)) =~= domain_pairs(t.subrange(0, i as int)).push(("domains[]"@, t[i as int])));
        }
        i = i + 1;
    }
    assert(texts(domains@).subrange(0, domains@.len() as int) == texts(domains@));
}

/// What a `citations` command asks for.
pub open spec fn citations_spec(cmd: CitationsCommand, g: GlobalArgs, project: Option<u64>) -> Result<PlanV, ErrorV> {
    match project {
        None => Err(no_project()),
        Some(id) => Ok(match cmd {
            CitationsCommand::List(args) => list_spec(
                "/citation_intelligence/groups"@,
                citation_query_spec(args.filters, id) + opt_pair("order"@, opt_view(args.order))
                    + opt_pair("direction"@, Some(args.direction@)),
                g,
            ),
            CitationsCommand::MentionsByDomain { domains, filters } => get_spec(
                "/citation_intelligence/mentions_by_domain"@,
                project_pairs(id) + filters_pairs(filters, false) + domain_pairs(texts(domains@)),
            ),
            CitationsCommand::Get { url_sha256, filters } => get_spec(
                "/citation_intelligence/urls/"@ + url_sha256@,
                citation_query_spec(filters, id),
            ),
            CitationsCommand::Occurrences { url_sha256, filters } => list_spec(
                "/citation_intelligence/urls/"@ + url_sha256@ + "/occurrences"@,
                citation_query_spec(filters, id),
                g,
            ),
            CitationsCommand::Content { url_sha256 } => get_spec(
                "/citation_intelligence/urls/"@ + url_sha256@ + "/content"@,
                project_pairs(id),
            ),
        }),
    }
}

/// Plans a `citations` command.
pub fn run_citations(cmd: &CitationsCommand, g: &GlobalArgs, project: Option<u64>) -> (r: Result<RequestPlan, CliError>)
    ensures
        plan_result(r) == citations_spec(*cmd, *g, project),
{
    match cmd {
        CitationsCommand::List(args) => {
            let mut q = match citation_query(&args.filters, project) {
                Ok(q) => q,
                Err(e) => return Err(e),
            };
            q.push_opt("order", copy_str(&args.order));
            q.push_opt("direction", Some(args.direction.clone()));
            Ok(plan_list(path("/citation_intelligence/groups"), q, g))
        },
        CitationsCommand::MentionsByDomain { domains, filters } => {
            let mut q = match project_query(project) {
                Ok(q) => q,
                Err(e) => return Err(e),
            };
            add_filters(&mut q, filters, false);
            add_domains(&mut q, domains);
            Ok(plan_get(path("/citation_intelligence/mentions_by_domain"), q))
        },
        CitationsCommand::Get { url_sha256, filters } => {
            let q = match citation_query(filters, project) {
                Ok(q) => q,
                Err(e) => return Err(e),
            };
            Ok(plan_get(path_with("/citation_intelligence/urls/", url_sha256), q))
        },
        CitationsCommand::Occurrences { url_sha256, filters } => {
            let q = match citation_query(filters, project) {
                Ok(q) => q,
                Err(e) => return Err(e),
            };
            Ok(plan_list(path_text("/citation_intelligence/urls/", url_sha256, "/occurrences"), q, g))
        },
        CitationsCommand::Content { url_sha256 } => {
            let q = match project_query(project) {
                Ok(q) => q,
                Err(e) => return Err(e),
            };
            Ok(plan_get(path_text("/citation_intelligence/urls/", url_sha256, "/content"), q))
        },
    }
}

/// What an `answers` command asks for.
pub open spec fn answers_spec(cmd: AnswersCommand, g: GlobalArgs, project: Option<u64>) -> Result<PlanV, ErrorV> {
    match project {
        None => Err(no_project()),
        Some(pid) => Ok(match cmd {
            AnswersCommand::List(filters) => list_spec("/answers"@, project_pairs(pid) + filters_pairs(filters, false), g),
            AnswersCommand::Get { id, include_source_page_details } => get_spec(
                "/answers/"@ + id@,
                project_pairs(pid) + bool_pair("include_source_page_details"@, include_source_page_details),
            ),
        }),
    }
}

/// Plans an `answers` command.
pub fn run_answers(cmd: &AnswersCommand, g: &GlobalArgs, project: Option<u64>) -> (r: Result<RequestPlan, CliError>)
    ensures
        plan_result(r) == answers_spec(*cmd, *g, project),
{
    let mut q = match project_query(project) {
        Ok(q) => q,
        Err(e) => return Err(e),
    };
    match cmd {
        AnswersCommand::List(filters) => {
            add_filters(&mut q, filters, false);
            Ok(plan_list(path("/answers"), q, g))
        },
        AnswersCommand::Get { id, include_source_page_details } => {
            q.push_bool("include_source_page_details", *include_source_page_details);
            Ok(plan_get(path_with("/answers/", id), q))
        },
    }
}

/// What a `sentiments` command asks for.
pub open spec fn sentiments_spec(cmd: SentimentsCommand, g: GlobalArgs, project: Option<u64>) -> Result<PlanV, ErrorV> {
    match project {
        None => Err(no_project()),
        Some(id) => Ok(match cmd {
            SentimentsCommand::List(args) => list_spec(
                "/sentiments"@,
                project_pairs(id) + filters_pairs(args.filters, false)
                    + opt_pair("competitor_id"@, opt_text(args.competitor_id))
                    + bool_pair("brand_only"@, args.brand_only) + opt_pair("analysis"@, opt_view(args.analysis)),
                g,
            ),
        }),
    }
}

/// Plans a `sentiments` command.
pub fn run_sentiments(cmd: &SentimentsCommand, g: &GlobalArgs, project: Option<u64>) -> (r: Result<RequestPlan, CliError>)
    ensures
        plan_result(r) == sentiments_spec(*cmd, *g, project),
{
    let SentimentsCommand::List(args) = cmd;
    let mut q = match project_query(project) {
        Ok(q) => q,
        Err(e) => return Err(e),
    };
    add_filters(&mut q, &args.filters, false);
    q.push_opt("competitor_id", args.competitor_id);
    q.push_bool("brand_only", args.brand_only);
    q.push_opt("analysis", copy_str(&args.analysis));
    Ok(plan_list(path("/sentiments"), q, g))
}

/* Recommendations, tasks, prompts --------------------------------------- */

/// The text a flag is sent as.
pub open spec fn bool_text(b: bool) -> Seq<char> {
    if b { "true"@ } else { "false"@ }
}

/// The text a flag is sent as.
fn bool_string(b: bool) -> (r: String)
    ensures
        r@ == bool_text(b),
{
    if b { String::from_str("true") } else { String::from_str("false") }
}

/// A flag as JSON.
fn json_bool(b: bool) -> (r: Json)
    ensures
        r@ == JsonV::Bool(b),
{
    Json::Bool(b)
}

/// An object with no members yet.
fn no_members() -> (e: Vec<(String, Json)>)
    ensures
        entries_view(e@) == Seq::<(Seq<char>, JsonV)>::empty(),
{
    let e: Vec<(String, Json)> = Vec::new();
    assert(entries_view(e@) =~= Seq::<(Seq<char>, JsonV)>::empty());
    e
}

/// What a `recommendations` command asks for.
pub open spec fn recommendations_spec(cmd: RecommendationsCommand, g: GlobalArgs, project: Option<u64>) -> Result<PlanV, ErrorV> {
    match project {
        None => Err(no_project()),
        Some(pid) => Ok(match cmd {
            RecommendationsCommand::List { recommendation_type, status } => list_spec(
                "/recommendations"@,
                project_pairs(pid) + opt_pair("recommendation_type"@, opt_view(recommendation_type))
                    + opt_pair("status"@, opt_view(status)),
                g,
            ),
            RecommendationsCommand::Get { id, item_status, resolve_source_refs } => get_spec(
                "/recommendations/"@ + decimal(id as nat),
                project_pairs(pid) + opt_pair("item_status"@, opt_view(item_status))
                    + seq![("resolve_source_refs"@, bool_text(resolve_source_refs))],
            ),
            RecommendationsCommand::Launch { recommendation_type } => body_spec(
                HttpMethod::Post,
                "/recommendations"@,
                JsonV::Object(seq![("project_id"@, jnum(pid)), ("recommendation_type"@, JsonV::Str(recommendation_type@))]),
            ),
        }),
    }
}

/// Plans a `recommendations` command.
pub fn run_recommendations(cmd: &RecommendationsCommand, g: &GlobalArgs, project: Option<u64>) -> (r: Result<RequestPlan, CliError>)
    ensures
        plan_result(r) == recommendations_spec(*cmd, *g, project),
{
    let pid = match project_id(project) {
        Ok(pid) => pid,
        Err(e) => return Err(e),
    };
    let mut q = query_for(pid);
    match cmd {
        RecommendationsCommand::List { recommendation_type, status } => {
            q.push_opt("recommendation_type", copy_str(recommendation_type));
            q.push_opt("status", copy_str(status));
            Ok(plan_list(path("/recommendations"), q, g))
        },
        RecommendationsCommand::Get { id, item_status, resolve_source_refs } => {
            q.push_opt("item_status", copy_str(item_status));
            let ghost before = query_view(q@);
            push_pair(&mut q, "resolve_source_refs", bool_string(*resolve_source_refs));
            assert(query_view(q@) =~= before + seq![("resolve_source_refs"@, bool_text(*resolve_source_refs))]);
            Ok(plan_get(path_id("/recommendations/", *id), q))
        },
        RecommendationsCommand::Launch { recommendation_type } => {
            let mut e = no_members();
            put(&mut e, "project_id", json_num(pid));
            put(&mut e, "recommendation_type", json_str(recommendation_type));
            assert(entries_view(e@) =~= seq![("project_id"@, jnum(pid)), ("recommendation_type"@, JsonV::Str(recommendation_type@))]);
            Ok(plan_body(HttpMethod::Post, path("/recommendations"), object(e)))
        },
    }
}

/// The body that creates an intelligence task, before its `null` members
/// are dropped.
pub open spec fn task_body(pid: u64, args: IntelligenceTaskCreateArgs) -> JsonV {
    JsonV::Object(seq![
        ("project_id"@, jnum(pid)),
        ("task_type"@, JsonV::Str(args.task_type@)),
        ("prompt_id"@, jopt_num(args.prompt_id)),
        ("custom_topic"@, jopt_str(opt_view(args.custom_topic))),
        ("user_instructions"@, jopt_str(opt_view(args.instructions))),
        ("output_language_code"@, jopt_str(opt_view(args.output_language_code))),
        ("existing_content"@, jopt_str(opt_view(args.existing_content))),
        ("existing_content_url"@, jopt_str(opt_view(args.existing_content_url))),
    ])
}

/// What an `intelligence-tasks` command asks for.
pub open spec fn intelligence_tasks_spec(cmd: IntelligenceTasksCommand, g: GlobalArgs, project: Option<u64>) -> Result<PlanV, ErrorV> {
    match project {
        None => Err(no_project()),
        Some(pid) => Ok(match cmd {
            IntelligenceTasksCommand::List { task_type, status } => list_spec(
                "/intelligence_tasks"@,
                project_pairs(pid) + opt_pair("task_type"@, opt_view(task_type)) + opt_pair("status"@, opt_view(status)),
                g,
            ),
            IntelligenceTasksCommand::Get { id } => get_spec("/intelligence_tasks/"@ + id@, project_pairs(pid)),
            IntelligenceTasksCommand::Create(args) => body_spec(
                HttpMethod::Post,
                "/intelligence_tasks"@,
                crate::query::compact_spec(task_body(pid, args)),
            ),
        }),
    }
}

/// Plans an `intelligence-tasks` command.
pub fn run_intelligence_tasks(cmd: &IntelligenceTasksCommand, g: &GlobalArgs, project: Option<u64>) -> (r: Result<RequestPlan, CliError>)
    ensures
        plan_result(r) == intelligence_tasks_spec(*cmd, *g, project),
{
    let pid = match project_id(project) {
        Ok(pid) => pid,
        Err(e) => return Err(e),
    };
    let mut q = query_for(pid);
    match cmd {
        IntelligenceTasksCommand::List { task_type, status } => {
            q.push_opt("task_type", copy_str(task_type));
            q.push_opt("status", copy_str(status));
            Ok(plan_list(path("/intelligence_tasks"), q, g))
        },
        IntelligenceTasksCommand::Get { id } => Ok(plan_get(path_with("/intelligence_tasks/", id), q)),
        IntelligenceTasksCommand::Create(args) => {
            let mut e = no_members();
            put(&mut e, "project_id", json_num(pid));
            put(&mut e, "task_type", json_str(&args.task_type));
            put(&mut e, "prompt_id", json_opt_num(args.prompt_id));
            put(&mut e, "custom_topic", json_opt_str(&args.custom_topic));
            put(&mut e, "user_instructions", json_opt_str(&args.instructions));
            put(&mut e, "output_language_code", json_opt_str(&args.output_language_code));
            put(&mut e, "existing_content", json_opt_str(&args.existing_content));
            put(&mut e, "existing_content_url", json_opt_str(&args.existing_content_url));
            assert(entries_view(e@) =~= task_body(pid, *args)->Object_0);
            let body = crate::query::compact_object(object(e));
            Ok(plan_body(HttpMethod::Post, path("/intelligence_tasks"), body))
        },
    }
}

/* Prompts and competitors ---------------------------------------------- */

/// The body that creates prompts.
pub open spec fn prompts_body(pid: u64, args: PromptCreateArgs) -> JsonV {
    JsonV::Object(seq![
        ("project_id"@, jnum(pid)),
        ("prompts"@, jstrings(texts(args.prompts@))),
        ("country_code"@, JsonV::Str(args.country_code@)),
        ("language_code"@, JsonV::Str(args.language_code@)),
    ])
}

/// The body that assigns tags, before its `null` members are dropped.
pub open spec fn assign_tags_body(pid: u64, args: PromptAssignTagsArgs) -> JsonV {
    JsonV::Object(seq![
        ("project_id"@, jnum(pid)),
        ("prompt_ids"@, jnums(args.prompt_ids@)),
        ("tag_ids"@, optional_array(args.tag_ids@.len() == 0, jnums(args.tag_ids@))),
        ("tag_names"@, optional_array(args.tag_names@.len() == 0, jstrings(texts(args.tag_names@)))),
        ("create_missing"@, JsonV::Bool(args.create_missing)),
    ])
}

/// What a `prompts` command asks for.
pub open spec fn prompts_spec(cmd: PromptsCommand, project: Option<u64>) -> Result<PlanV, ErrorV> {
    match project {
        None => Err(no_project()),
        Some(pid) => Ok(match cmd {
            PromptsCommand::Create(args) => body_spec(HttpMethod::Post, "/prompts"@, prompts_body(pid, args)),
            PromptsCommand::AssignTags(args) => body_spec(
                HttpMethod::Post,
                "/prompts/assign_tags"@,
                crate::query::compact_spec(assign_tags_body(pid, args)),
            ),
            PromptsCommand::Delete { id, yes } => delete_spec("/prompts/"@ + decimal(id as nat), project_pairs(pid)),
        }),
    }
}

/// Plans a `prompts` command. A deletion is confirmed first (see
/// [`deletion_target`]).
pub fn run_prompts(cmd: &PromptsCommand, project: Option<u64>) -> (r: Result<RequestPlan, CliError>)
    ensures
        plan_result(r) == prompts_spec(*cmd, project),
{
    let pid = match project_id(project) {
        Ok(pid) => pid,
        Err(e) => return Err(e),
    };
    match cmd {
        PromptsCommand::Create(args) => {
            let mut e = no_members();
            put(&mut e, "project_id", json_num(pid));
            put(&mut e, "prompts", json_strings(&args.prompts));
            put(&mut e, "country_code", json_str(&args.country_code));
            put(&mut e, "language_code", json_str(&args.language_code));
            assert(entries_view(e@) =~= prompts_body(pid, *args)->Object_0);
            Ok(plan_body(HttpMethod::Post, path("/prompts"), object(e)))
        },
        PromptsCommand::AssignTags(args) => {
            let mut e = no_members();
            put(&mut e, "project_id", json_num(pid));
            put(&mut e, "prompt_ids", json_nums(&args.prompt_ids));
            put(&mut e, "tag_ids", optional_nums(&args.tag_ids));
            put(&mut e, "tag_names", optional_strings(&args.tag_names));
            put(&mut e, "create_missing", json_bool(args.create_missing));
            assert(entries_view(e@) =~= assign_tags_body(pid, *args)->Object_0);
            let body = crate::query::compact_object(object(e));
            Ok(plan_body(HttpMethod::Post, path("/prompts/assign_tags"), body))
        },
        PromptsCommand::Delete { id, yes } => Ok(plan_delete(path_id("/prompts/", *id), query_for(pid))),
    }
}

/// The message when a competitor update changes nothing.
pub open spec fn competitor_update_message() -> Seq<char> {
    "Provide --brand-name, --matching-names, or --color"@
}

/// An update that names no field to change.
pub open spec fn competitor_update_empty(args: CompetitorUpdateArgs) -> bool {
    args.brand_name is None && args.matching_names@.len() == 0 && args.color is None
}

/// The body that creates a competitor, before its `null` members are dropped.
pub open spec fn competitor_create_body(pid: u64, args: CompetitorCreateArgs) -> JsonV {
    JsonV::Object(seq![
        ("project_id"@, jnum(pid)),
        ("brand_name"@, JsonV::Str(args.brand_name@)),
        ("domain"@, JsonV::Str(args.domain@)),
        ("matching_names"@, optional_array(args.matching_names@.len() == 0, jstrings(texts(args.matching_names@)))),
    ])
}

/// The body that updates a competitor, before its `null` members are dropped.
pub open spec fn competitor_update_body(pid: u64, args: CompetitorUpdateArgs) -> JsonV {
    JsonV::Object(seq![
        ("project_id"@, jnum(pid)),
        ("brand_name"@, jopt_str(opt_view(args.brand_name))),
        ("matching_names"@, optional_array(args.matching_names@.len() == 0, jstrings(texts(args.matching_names@)))),
        ("color"@, jopt_str(opt_view(args.color))),
    ])
}

/// What a `competitors` command asks for. An update that changes nothing is
/// refused before the project is looked at.
pub open spec fn competitors_spec(cmd: CompetitorsCommand, project: Option<u64>) -> Result<PlanV, ErrorV> {
    if cmd matches CompetitorsCommand::Update(args) && competitor_update_empty(args) {
        Err(ErrorV::Usage(competitor_update_message()))
    } else {
        match project {
            None => Err(no_project()),
            Some(pid) => Ok(match cmd {
                CompetitorsCommand::Create(args) => body_spec(
                    HttpMethod::Post,
                    "/competitors"@,
                    crate::query::compact_spec(competitor_create_body(pid, args)),
                ),
                CompetitorsCommand::Update(args) => body_spec(
                    HttpMethod::Patch,
                    "/competitors/"@ + decimal(args.id as nat),
                    crate::query::compact_spec(competitor_update_body(pid, args)),
                ),
                CompetitorsCommand::Delete { id, yes } => delete_spec(
                    "/competitors/"@ + decimal(id as nat),
                    project_pairs(pid),
                ),
            }),
        }
    }
}

/// Plans a `competitors` command. A deletion is confirmed first (see
/// [`deletion_target`]).
pub fn run_competitors(cmd: &CompetitorsCommand, project: Option<u64>) -> (r: Result<RequestPlan, CliError>)
    ensures
        plan_result(r) == competitors_spec(*cmd, project),
{
    if let CompetitorsCommand::Update(args) = cmd {
        if args.brand_name.is_none() && args.matching_names.len() == 0 && args.color.is_none() {
            return Err(usage("Provide --brand-name, --matching-names, or --color"));
        }
    }
    let pid = match project_id(project) {
        Ok(pid) => pid,
        Err(e) => return Err(e),
    };
    match cmd {
        CompetitorsCommand::Create(args) => {
            let mut e = no_members();
            put(&mut e, "project_id", json_num(pid));
            put(&mut e, "brand_name", json_str(&args.brand_name));
            put(&mut e, "domain", json_str(&args.domain));
            put(&mut e, "matching_names", optional_strings(&args.matching_names));
            assert(entries_view(e@) =~= competitor_create_body(pid, *args)->Object_0);
            let body = crate::query::compact_object(object(e));
            Ok(plan_body(HttpMethod::Post, path("/competitors"), body))
        },
        CompetitorsCommand::Update(args) => {
            let mut e = no_members();
            put(&mut e, "project_id", json_num(pid));
            put(&mut e, "brand_name", json_opt_str(&args.brand_name));
            put(&mut e, "matching_names", optional_strings(&args.matching_names));
            put(&mut e, "color", json_opt_str(&args.color));
            assert(entries_view(e@) =~= competitor_update_body(pid, *args)->Object_0);
            let body = crate::query::compact_object(object(e));
            Ok(plan_body(HttpMethod::Patch, path_id("/competitors/", args.id), body))
        },
        CompetitorsCommand::Delete { id, yes } => Ok(plan_delete(path_id("/competitors/", *id), query_for(pid))),
    }
}

/* Projects -------------------------------------------------------------- */

/// The body that creates a project, before its `null` members are dropped.
pub open spec fn project_create_body(args: ProjectCreateArgs) -> JsonV {
    JsonV::Object(seq![
        ("website_url"@, JsonV::Str(args.website_url@)),
        ("name"@, JsonV::Str(args.name@)),
        ("main_country"@, JsonV::Str(args.main_country@)),
        ("main_language"@, JsonV::Str(args.main_language@)),
        ("brand_name"@, jopt_str(opt_view(args.brand_name))),
        ("description"@, jopt_str(opt_view(args.description))),
        ("industry"@, optional_array(args.industry@.len() == 0, jstrings(texts(args.industry@)))),
        ("matching_names"@, optional_array(args.matching_names@.len() == 0, jstrings(texts(args.matching_names@)))),
        ("prompts"@, optional_array(args.prompts@.len() == 0, jstrings(texts(args.prompts@)))),
        ("competitors"@, optional_array(args.competitors@.len() == 0, jstrings(texts(args.competitors@)))),
        ("external_identifier"@, jopt_str(opt_view(args.external_identifier))),
        ("execute_prompts_immediately"@, JsonV::Bool(!args.defer_execution)),
    ])
}

/// The body that starts a project draft.
pub open spec fn draft_start_body(args: ProjectDraftStartArgs) -> JsonV {
    JsonV::Object(seq![
        ("website_url"@, JsonV::Str(args.website_url@)),
        ("main_country"@, JsonV::Str(args.main_country@)),
        ("main_language"@, JsonV::Str(args.main_language@)),
        ("suggest"@, JsonV::Bool(!args.no_suggest)),
    ])
}

/// The body that finalizes a draft: prompts run at once unless deferred.
pub open spec fn draft_finalize_body(defer_execution: bool) -> JsonV {
    if defer_execution {
        JsonV::Object(seq![("execute_prompts_immediately"@, JsonV::Bool(false))])
    } else {
        JsonV::Object(Seq::empty())
    }
}

/// Whether an object has a member `key`.
pub open spec fn has_member(entries: Seq<(Seq<char>, JsonV)>, key: Seq<char>) -> bool {
    exists|i: int| 0 <= i < entries.len() && (#[trigger] entries[i]).0 == key
}

/// An object with member `key` set to `value`: every member of that name
/// takes the value; without one, the member is added at the end.
pub open spec fn with_member(entries: Seq<(Seq<char>, JsonV)>, key: Seq<char>, value: JsonV) -> Seq<(Seq<char>, JsonV)> {
    if has_member(entries, key) {
        entries.map_values(|e: (Seq<char>, JsonV)| if e.0 == key { (key, value) } else { e })
    } else {
        entries.push((key, value))
    }
}

/// Sets member `key` of an object to `value`.
fn set_member(entries: &Vec<(String, Json)>, key: &str, value: Json) -> (r: Vec<(String, Json)>)
    ensures
        entries_view(r@) == with_member(entries_view(entries@), key@, value@),
{
    let ghost view = entries_view(entries@);
    let ghost f = |e: (Seq<char>, JsonV)| if e.0 == key@ { (key@, value@) } else { e };
    let mut out: Vec<(String, Json)> = Vec::new();
    let mut found = false;
    let mut i: usize = 0;
    while i < entries.len()
        invariant
            i <= entries@.len(),
            view == entries_view(entries@),
            f == (|e: (Seq<char>, JsonV)| if e.0 == key@ { (key@, value@) } else { e }),
            entries_view(out@) == view.subrange(0, i as int).map_values(f),
            found <==> exists|j: int| 0 <= j < i && (#[trigger] view[j]).0 == key@,
        decreases entries@.len() - i,
    {
        let ghost before = entries_view(out@);
        let hit = str_eq(entries[i].0.as_str(), key);
        if hit {
            out.push((String::from_str(key), value.duplicate()));
            found = true;
        } else {
            out.push((entries[i].0.clone(), entries[i].1.duplicate()));
        }
        proof {
            assert(view[i as int] == (entries@[i as int].0@, entries@[i as int].1@));
            assert(entries_view(out@) =~= before.push(f(view[i as int])));
            assert(view.subrange(0, i + 1) =~= view.subrange(0, i as int).push(view[i as int]));
            assert(view.subrange(0, i + 1).map_values(f) =~= view.subrange(0, i as int).map_values(f).push(f(view[i as int])));
        }
        i = i + 1;
    }
    assert(view.subrange(0, view.len() as int) == view);
    if found {
        assert(has_member(view, key@));
        out
    } else {
        assert(!has_member(view, key@));
        assert(view.map_values(f) =~= view);
        let ghost before = entries_view(out@);
        out.push((String::from_str(key), value));
        assert(entries_view(out@) =~= before.push((key@, value@)));
        out
    }
}

/// What `projects draft-step` sends: the payload, which must be a JSON
/// object, with its `step` member set.
pub open spec fn draft_step_spec(id: Seq<char>, step: Seq<char>, payload: Result<JsonV, Seq<char>>) -> Result<PlanV, ErrorV> {
    match payload {
        Err(m) => Err(ErrorV::Usage("--payload must be a JSON object: "@ + m)),
        Ok(JsonV::Object(entries)) => Ok(body_spec(
            HttpMethod::Patch,
            "/project_drafts/"@ + id,
            JsonV::Object(with_member(entries, "step"@, JsonV::Str(step))),
        )),
        Ok(_) => Err(ErrorV::Usage("--payload must be a JSON object"@)),
    }
}

/// What a `projects` command asks for; none of them needs a project.
pub open spec fn projects_spec(cmd: ProjectsCommand) -> Result<PlanV, ErrorV> {
    match cmd {
        ProjectsCommand::Create(args) => Ok(body_spec(
            HttpMethod::Post,
            "/projects"@,
            crate::query::compact_spec(project_create_body(args)),
        )),
        ProjectsCommand::DraftStart(args) => Ok(body_spec(HttpMethod::Post, "/project_drafts"@, draft_start_body(args))),
        ProjectsCommand::DraftGet { id, include_suggestions } => Ok(get_spec(
            "/project_drafts/"@ + id@,
            seq![("include_suggestions"@, bool_text(include_suggestions))],
        )),
        ProjectsCommand::DraftStep { id, step, payload } => draft_step_spec(
            id@,
            step@,
            crate::json_io::parsed_json_text(payload@),
        ),
        ProjectsCommand::DraftFinalize { id, defer_execution } => Ok(body_spec(
            HttpMethod::Post,
            "/project_drafts/"@ + id@ + "/finalize"@,
            draft_finalize_body(defer_execution),
        )),
    }
}

/// Plans a `projects` command.
pub fn run_projects(cmd: &ProjectsCommand) -> (r: Result<RequestPlan, CliError>)
    ensures
        plan_result(r) == projects_spec(*cmd),
{
    match cmd {
        ProjectsCommand::Create(args) => {
            let mut e = no_members();
            put(&mut e, "website_url", json_str(&args.website_url));
            put(&mut e, "name", json_str(&args.name));
            put(&mut e, "main_country", json_str(&args.main_country));
            put(&mut e, "main_language", json_str(&args.main_language));
            put(&mut e, "brand_name", json_opt_str(&args.brand_name));
            put(&mut e, "description", json_opt_str(&args.description));
            put(&mut e, "industry", optional_strings(&args.industry));
            put(&mut e, "matching_names", optional_strings(&args.matching_names));
            put(&mut e, "prompts", optional_strings(&args.prompts));
            put(&mut e, "competitors", optional_strings(&args.competitors));
            put(&mut e, "external_identifier", json_opt_str(&args.external_identifier));
            put(&mut e, "execute_prompts_immediately", json_bool(!args.defer_execution));
            assert(entries_view(e@) =~= project_create_body(*args)->Object_0);
            let body = crate::query::compact_object(object(e));
            Ok(plan_body(HttpMethod::Post, path("/projects"), body))
        },
        ProjectsCommand::DraftStart(args) => {
            let mut e = no_members();
            put(&mut e, "website_url", json_str(&args.website_url));
            put(&mut e, "main_country", json_str(&args.main_country));
            put(&mut e, "main_language", json_str(&args.main_language));
            put(&mut e, "suggest", json_bool(!args.no_suggest));
            assert(entries_view(e@) =~= draft_start_body(*args)->Object_0);
            Ok(plan_body(HttpMethod::Post, path("/project_drafts"), object(e)))
        },
        ProjectsCommand::DraftGet { id, include_suggestions } => {
            let mut q = no_query();
            push_pair(&mut q, "include_suggestions", bool_string(*include_suggestions));
            assert(query_view(q@) =~= seq![("include_suggestions"@, bool_text(*include_suggestions))]);
            Ok(plan_get(path_with("/project_drafts/", id), q))
        },
        ProjectsCommand::DraftStep { id, step, payload } => match crate::json_io::read_json(payload.as_str()) {
            Err(message) => {
                let mut text = String::from_str("--payload must be a JSON object: ");
                text.append(message.as_str());
                Err(CliError::Usage(text))
            },
            Ok(Json::Object(entries)) => {
                let updated = set_member(&entries, "step", Json::String(step.clone()));
                proof { lemma_object_view(entries); }
                Ok(plan_body(HttpMethod::Patch, path_with("/project_drafts/", id), object(updated)))
            },
            Ok(_) => Err(usage("--payload must be a JSON object")),
        },
        ProjectsCommand::DraftFinalize { id, defer_execution } => {
            let mut e = no_members();
            if *defer_execution {
                put(&mut e, "execute_prompts_immediately", json_bool(false));
                assert(entries_view(e@) =~= seq![("execute_prompts_immediately"@, JsonV::Bool(false))]);
            }
            Ok(plan_body(HttpMethod::Post, path_text("/project_drafts/", id, "/finalize"), object(e)))
        },
    }
}

/* Collections, annotations, reports, webhooks --------------------------- */

/// The body that creates a collection, before its `null` members are dropped.
pub open spec fn collection_create_body(pid: u64, args: CollectionCreateArgs) -> JsonV {
    JsonV::Object(seq![
        ("project_id"@, jnum(pid)),
        ("name"@, JsonV::Str(args.name@)),
        ("description"@, jopt_str(opt_view(args.description))),
        ("prompt_ids"@, optional_array(args.prompt_ids@.len() == 0, jnums(args.prompt_ids@))),
    ])
}

/// The body that updates a collection, before its `null` members are dropped.
pub open spec fn collection_update_body(pid: u64, args: CollectionUpdateArgs) -> JsonV {
    JsonV::Object(seq![
        ("project_id"@, jnum(pid)),
        ("name"@, jopt_str(opt_view(args.name))),
        ("description"@, jopt_str(opt_view(args.description))),
    ])
}

/// The message when a collection update changes nothing.
pub open spec fn collection_update_message() -> Seq<char> {
    "Provide --name or --description"@
}

/// What a `collections` command asks for. An update that changes nothing is
/// refused before the project is looked at.
pub open spec fn collections_spec(cmd: CollectionsCommand, project: Option<u64>) -> Result<PlanV, ErrorV> {
    if cmd matches CollectionsCommand::Update(args) && args.name is None && args.description is None {
        Err(ErrorV::Usage(collection_update_message()))
    } else {
        match project {
            None => Err(no_project()),
            Some(pid) => Ok(match cmd {
                CollectionsCommand::Create(args) => body_spec(
                    HttpMethod::Post,
                    "/collections"@,
                    crate::query::compact_spec(collection_create_body(pid, args)),
                ),
                CollectionsCommand::Update(args) => body_spec(
                    HttpMethod::Patch,
                    "/collections/"@ + decimal(args.id as nat),
                    crate::query::compact_spec(collection_update_body(pid, args)),
                ),
                CollectionsCommand::Delete { id, yes } => delete_spec(
                    "/collections/"@ + decimal(id as nat),
                    project_pairs(pid),
                ),
            }),
        }
    }
}

/// Plans a `collections` command. A deletion is confirmed first (see
/// [`deletion_target`]).
pub fn run_collections(cmd: &CollectionsCommand, project: Option<u64>) -> (r: Result<RequestPlan, CliError>)
    ensures
        plan_result(r) == collections_spec(*cmd, project),
{
    if let CollectionsCommand::Update(args) = cmd {
        if args.name.is_none() && args.description.is_none() {
            return Err(usage("Provide --name or --description"));
        }
    }
    let pid = match project_id(project) {
        Ok(pid) => pid,
        Err(e) => return Err(e),
    };
    match cmd {
        CollectionsCommand::Create(args) => {
            let mut e = no_members();
            put(&mut e, "project_id", json_num(pid));
            put(&mut e, "name", json_str(&args.name));
            put(&mut e, "description", json_opt_str(&args.description));
            put(&mut e, "prompt_ids", optional_nums(&args.prompt_ids));
            assert(entries_view(e@) =~= collection_create_body(pid, *args)->Object_0);
            let body = crate::query::compact_object(object(e));
            Ok(plan_body(HttpMethod::Post, path("/collections"), body))
        },
        CollectionsCommand::Update(args) => {
            let mut e = no_members();
            put(&mut e, "project_id", json_num(pid));
            put(&mut e, "name", json_opt_str(&args.name));
            put(&mut e, "description", json_opt_str(&args.description));
            assert(entries_view(e@) =~= collection_update_body(pid, *args)->Object_0);
            let body = crate::query::compact_object(object(e));
            Ok(plan_body(HttpMethod::Patch, path_id("/collections/", args.id), body))
        },
        CollectionsCommand::Delete { id, yes } => Ok(plan_delete(path_id("/collections/", *id), query_for(pid))),
    }
}

/// The body that writes an annotation, before its `null` members are dropped.
pub open spec fn annotation_body(
    pid: u64,
    title: JsonV,
    description: Option<String>,
    color: Option<String>,
    date: Option<String>,
    category_id: Option<u64>,
) -> JsonV {
    JsonV::Object(seq![
        ("project_id"@, jnum(pid)),
        ("title"@, title),
        ("description"@, jopt_str(opt_view(description))),
        ("color"@, jopt_str(opt_view(color))),
        ("annotation_date"@, jopt_str(opt_view(date))),
        ("annotation_category_id"@, jopt_num(category_id)),
    ])
}

/// An annotation update that names no field to change.
pub open spec fn annotation_update_empty(args: AnnotationUpdateArgs) -> bool {
    args.title is None && args.description is None && args.color is None && args.date is None
        && args.category_id is None
}

/// The message when an annotation update changes nothing.
pub open spec fn annotation_update_message() -> Seq<char> {
    "Provide at least one annotation field to update"@
}

/// What an `annotations` command asks for. An update that changes nothing
/// is refused before the project is looked at.
pub open spec fn annotations_spec(cmd: AnnotationsCommand, g: GlobalArgs, project: Option<u64>) -> Result<PlanV, ErrorV> {
    if cmd matches AnnotationsCommand::Update(args) && annotation_update_empty(args) {
        Err(ErrorV::Usage(annotation_update_message()))
    } else {
        match project {
            None => Err(no_project()),
            Some(pid) => Ok(match cmd {
                AnnotationsCommand::List(args) => list_spec(
                    "/annotations"@,
                    project_pairs(pid) + opt_pair("from"@, opt_view(args.from)) + opt_pair("to"@, opt_view(args.to))
                        + opt_pair("annotation_category_id"@, opt_text(args.category_id)),
                    g,
                ),
                AnnotationsCommand::Create(args) => body_spec(
                    HttpMethod::Post,
                    "/annotations"@,
                    crate::query::compact_spec(annotation_body(
                        pid,
                        JsonV::Str(args.title@),
                        args.description,
                        args.color,
                        args.date,
                        args.category_id,
                    )),
                ),
                AnnotationsCommand::Update(args) => body_spec(
                    HttpMethod::Patch,
                    "/annotations/"@ + decimal(args.id as nat),
                    crate::query::compact_spec(annotation_body(
                        pid,
                        jopt_str(opt_view(args.title)),
                        args.description,
                        args.color,
                        args.date,
                        args.category_id,
                    )),
                ),
                AnnotationsCommand::Delete { id, yes } => delete_spec(
                    "/annotations/"@ + decimal(id as nat),
                    project_pairs(pid),
                ),
            }),
        }
    }
}

/// Writes the members of an annotation body.
fn annotation_entries(
    pid: u64,
    title: Json,
    description: &Option<String>,
    color: &Option<String>,
    date: &Option<String>,
    category_id: Option<u64>,
) -> (r: Json)
    ensures
        r@ == crate::query::compact_spec(annotation_body(pid, title@, *description, *color, *date, category_id)),
{
    let ghost t = title@;
    let mut e = no_members();
    put(&mut e, "project_id", json_num(pid));
    put(&mut e, "title", title);
    put(&mut e, "description", json_opt_str(description));
    put(&mut e, "color", json_opt_str(color));
    put(&mut e, "annotation_date", json_opt_str(date));
    put(&mut e, "annotation_category_id", json_opt_num(category_id));
    assert(entries_view(e@) =~= annotation_body(pid, t, *description, *color, *date, category_id)->Object_0);
    crate::query::compact_object(object(e))
}

/// Plans an `annotations` command. A deletion is confirmed first (see
/// [`deletion_target`]).
pub fn run_annotations(cmd: &AnnotationsCommand, g: &GlobalArgs, project: Option<u64>) -> (r: Result<RequestPlan, CliError>)
    ensures
        plan_result(r) == annotations_spec(*cmd, *g, project),
{
    if let AnnotationsCommand::Update(args) = cmd {
        if args.title.is_none() && args.description.is_none() && args.color.is_none() && args.date.is_none()
            && args.category_id.is_none() {
            return Err(usage("Provide at least one annotation field to update"));
        }
    }
    let pid = match project_id(project) {
        Ok(pid) => pid,
        Err(e) => return Err(e),
    };
    match cmd {
        AnnotationsCommand::List(args) => {
            let mut q = query_for(pid);
            q.push_opt("from", copy_str(&args.from));
            q.push_opt("to", copy_str(&args.to));
            q.push_opt("annotation_category_id", args.category_id);
            Ok(plan_list(path("/annotations"), q, g))
        },
        AnnotationsCommand::Create(args) => {
            let body = annotation_entries(
                pid,
                json_str(&args.title),
                &args.description,
                &args.color,
                &args.date,
                args.category_id,
            );
            Ok(plan_body(HttpMethod::Post, path("/annotations"), body))
        },
        AnnotationsCommand::Update(args) => {
            let body = annotation_entries(
                pid,
                json_opt_str(&args.title),
                &args.description,
                &args.color,
                &args.date,
                args.category_id,
            );
            Ok(plan_body(HttpMethod::Patch, path_id("/annotations/", args.id), body))
        },
        AnnotationsCommand::Delete { id, yes } => Ok(plan_delete(path_id("/annotations/", *id), query_for(pid))),
    }
}

/// What a `reports` command asks for.
pub open spec fn reports_spec(cmd: ReportsCommand, project: Option<u64>) -> Result<PlanV, ErrorV> {
    match project {
        None => Err(no_project()),
        Some(pid) => match cmd {
            ReportsCommand::TechnicalGeo { url, country_code } => Ok(body_spec(
                HttpMethod::Post,
                "/technical_geo_reports"@,
                crate::query::compact_spec(JsonV::Object(seq![
                    ("project_id"@, jnum(pid)),
                    ("url"@, JsonV::Str(url@)),
                    ("country_code"@, jopt_str(opt_view(country_code))),
                ])),
            )),
        },
    }
}

/// Plans a `reports` command.
pub fn run_reports(cmd: &ReportsCommand, project: Option<u64>) -> (r: Result<RequestPlan, CliError>)
    ensures
        plan_result(r) == reports_spec(*cmd, project),
{
    let pid = match project_id(project) {
        Ok(pid) => pid,
        Err(e) => return Err(e),
    };
    match cmd {
        ReportsCommand::TechnicalGeo { url, country_code } => {
            let mut e = no_members();
            put(&mut e, "project_id", json_num(pid));
            put(&mut e, "url", json_str(url));
            put(&mut e, "country_code", json_opt_str(country_code));
            let ghost want = seq![
                ("project_id"@, jnum(pid)),
                ("url"@, JsonV::Str(url@)),
                ("country_code"@, jopt_str(opt_view(*country_code))),
            ];
            assert(entries_view(e@) =~= want);
            let body = crate::query::compact_object(object(e));
            Ok(plan_body(HttpMethod::Post, path("/technical_geo_reports"), body))
        },
    }
}

/// What a `webhooks` command asks for. Listing sends the project only when
/// `--project-id` was given; deleting needs no project.
pub open spec fn webhooks_spec(cmd: WebhooksCommand, g: GlobalArgs, project: Option<u64>) -> Result<PlanV, ErrorV> {
    match cmd {
        WebhooksCommand::List => Ok(list_spec("/webhooks"@, opt_pair("project_id"@, opt_text(g.project_id)), g)),
        WebhooksCommand::Delete { id, yes } => Ok(delete_spec("/webhooks/"@ + decimal(id as nat), Seq::empty())),
        WebhooksCommand::Create { event_type, target_url } => match project {
            None => Err(no_project()),
            Some(pid) => Ok(body_spec(
                HttpMethod::Post,
                "/webhooks"@,
                JsonV::Object(seq![
                    ("project_id"@, jnum(pid)),
                    ("event_type"@, JsonV::Str(event_type@)),
                    ("target_url"@, JsonV::Str(target_url@)),
                ]),
            )),
        },
        WebhooksCommand::Sample { event_type } => match project {
            None => Err(no_project()),
            Some(pid) => Ok(get_spec("/webhooks/sample/"@ + event_type@, project_pairs(pid))),
        },
    }
}

/// Plans a `webhooks` command. A deletion is confirmed first (see
/// [`deletion_target`]).
pub fn run_webhooks(cmd: &WebhooksCommand, g: &GlobalArgs, project: Option<u64>) -> (r: Result<RequestPlan, CliError>)
    ensures
        plan_result(r) == webhooks_spec(*cmd, *g, project),
{
    match cmd {
        WebhooksCommand::List => {
            let mut q = no_query();
            q.push_opt("project_id", g.project_id);
            Ok(plan_list(path("/webhooks"), q, g))
        },
        WebhooksCommand::Delete { id, yes } => Ok(plan_delete(path_id("/webhooks/", *id), no_query())),
        WebhooksCommand::Create { event_type, target_url } => {
            let pid = match project_id(project) {
                Ok(pid) => pid,
                Err(e) => return Err(e),
            };
            let mut e = no_members();
            put(&mut e, "project_id", json_num(pid));
            put(&mut e, "event_type", json_str(event_type));
            put(&mut e, "target_url", json_str(target_url));
            let ghost want = seq![
                ("project_id"@, jnum(pid)),
                ("event_type"@, JsonV::Str(event_type@)),
                ("target_url"@, JsonV::Str(target_url@)),
            ];
            assert(entries_view(e@) =~= want);
            Ok(plan_body(HttpMethod::Post, path("/webhooks"), object(e)))
        },
        WebhooksCommand::Sample { event_type } => {
            let pid = match project_id(project) {
                Ok(pid) => pid,
                Err(e) => return Err(e),
            };
            Ok(plan_get(path_with("/webhooks/sample/", event_type), query_for(pid)))
        },
    }
}

/// What `ping` asks for: the project only when `--project-id` was given.
pub open spec fn ping_spec(g: GlobalArgs) -> PlanV {
    get_spec("/ping"@, opt_pair("project_id"@, opt_text(g.project_id)))
}

/// Plans `ping`.
pub fn run_ping(g: &GlobalArgs) -> (r: RequestPlan)
    ensures
        r@ == ping_spec(*g),
{
    let mut q = no_query();
    q.push_opt("project_id", g.project_id);
    plan_get(path("/ping"), q)
}

/* Deleting --------------------------------------------------------------- */

/// What a command deletes, and whether `--yes` was given.
pub open spec fn deletion_target_spec(cmd: Command) -> Option<(Seq<char>, bool)> {
    match cmd {
        Command::Prompts { command: PromptsCommand::Delete { id, yes } } => Some(("prompt "@ + decimal(id as nat), yes)),
        Command::Competitors { command: CompetitorsCommand::Delete { id, yes } } => Some(
            ("competitor "@ + decimal(id as nat), yes),
        ),
        Command::Collections { command: CollectionsCommand::Delete { id, yes } } => Some(
            ("collection "@ + decimal(id as nat), yes),
        ),
        Command::Annotations { command: AnnotationsCommand::Delete { id, yes } } => Some(
            ("annotation "@ + decimal(id as nat), yes),
        ),
        Command::Webhooks { command: WebhooksCommand::Delete { id, yes } } => Some(("webhook "@ + decimal(id as nat), yes)),
        _ => None,
    }
}

/// What a command deletes (`prompt 7`, `webhook 3`, ...) and whether
/// `--yes` was given; `None` for a command that deletes nothing.
pub fn deletion_target(cmd: &Command) -> (r: Option<(String, bool)>)
    ensures
        match r {
            Some((t, yes)) => deletion_target_spec(*cmd) == Some((t@, yes)),
            None => deletion_target_spec(*cmd) is None,
        },
{
    match cmd {
        Command::Prompts { command: PromptsCommand::Delete { id, yes } } => Some((path_id("prompt ", *id), *yes)),
        Command::Competitors { command: CompetitorsCommand::Delete { id, yes } } => Some((path_id("competitor ", *id), *yes)),
        Command::Collections { command: CollectionsCommand::Delete { id, yes } } => Some((path_id("collection ", *id), *yes)),
        Command::Annotations { command: AnnotationsCommand::Delete { id, yes } } => Some((path_id("annotation ", *id), *yes)),
        Command::Webhooks { command: WebhooksCommand::Delete { id, yes } } => Some((path_id("webhook ", *id), *yes)),
        _ => None,
    }
}

/// The next step before a deletion.
#[derive(Debug)]
pub enum Confirmation {
    /// Delete without asking.
    Proceed,
    /// Ask the user this question first.
    Ask(String),
}

/// The content of a [`Confirmation`].
pub enum ConfirmationV {
    Proceed,
    Ask(Seq<char>),
}

impl View for Confirmation {
    type V = ConfirmationV;

    open spec fn view(&self) -> ConfirmationV {
        match self {
            Confirmation::Proceed => ConfirmationV::Proceed,
            Confirmation::Ask(q) => ConfirmationV::Ask(q@),
        }
    }
}

/// Deleting proceeds with `--yes`; otherwise it asks when input is
/// interactive and is refused when it is not.
pub open spec fn confirm_delete_spec(resource: Seq<char>, yes: bool, interactive: bool) -> Result<ConfirmationV, ErrorV> {
    if yes {
        Ok(ConfirmationV::Proceed)
    } else if !interactive {
        Err(ErrorV::Usage("Deleting "@ + resource + " requires --yes when input is not interactive"@))
    } else {
        Ok(ConfirmationV::Ask("Delete "@ + resource + "? This cannot be undone"@))
    }
}

/// Decides how a deletion is confirmed.
pub fn confirm_delete(resource: &str, yes: bool, interactive: bool) -> (r: Result<Confirmation, CliError>)
    ensures
        crate::error::res_view(r) == confirm_delete_spec(resource@, yes, interactive),
{
    if yes {
        Ok(Confirmation::Proceed)
    } else if !interactive {
        let mut text = String::from_str("Deleting ");
        text.append(resource);
        text.append(" requires --yes when input is not interactive");
        Err(CliError::Usage(text))
    } else {
        let mut text = String::from_str("Delete ");
        text.append(resource);
        text.append("? This cannot be undone");
        Ok(Confirmation::Ask(text))
    }
}

/// Nothing is deleted unasked.
///
/// A deletion goes ahead without a question only with `--yes`; without it,
/// it asks when input is interactive and is refused otherwise.
pub proof fn law_no_silent_deletion(resource: Seq<char>, yes: bool, interactive: bool)
    ensures
        confirm_delete_spec(resource, yes, interactive) == Ok::<ConfirmationV, ErrorV>(ConfirmationV::Proceed) ==> yes,
        !yes && !interactive ==> confirm_delete_spec(resource, yes, interactive) is Err,
        !yes && interactive ==> confirm_delete_spec(resource, yes, interactive) matches Ok(ConfirmationV::Ask(_)),
{
}

/// The user's answer to the question: no answer but yes deletes.
pub fn confirmation_answer(confirmed: bool) -> (r: Result<(), CliError>)
    ensures
        r is Ok <==> confirmed,
        r matches Err(e) ==> e@ == ErrorV::Usage("Delete cancelled"@),
{
    if confirmed {
        Ok(())
    } else {
        Err(usage("Delete cancelled"))
    }
}

/* The raw API command --------------------------------------------------- */

/// `://`, the mark of an absolute URL.
pub open spec fn scheme_mark() -> Seq<char> {
    seq![':', '/', '/']
}

/// A carriage return or line feed occurs in `s`.
pub open spec fn has_line_break(s: Seq<char>) -> bool {
    exists|i: int| 0 <= i < s.len() && (#[trigger] s[i] == '\r' || s[i] == '\n')
}

/// The message when the raw API path is not relative.
pub open spec fn relative_path_message() -> Seq<char> {
    "The API path must be relative to the configured base URL"@
}

/// A raw API path: refused when it holds `://` or a line break; otherwise
/// given a leading `/` when it lacks one.
pub open spec fn normalize_api_path_spec(p: Seq<char>) -> Result<Seq<char>, ErrorV> {
    if crate::text::contains_seq(p, scheme_mark()) || has_line_break(p) {
        Err(ErrorV::Usage(relative_path_message()))
    } else if p.len() > 0 && p[0] == '/' {
        Ok(p)
    } else {
        Ok(seq!['/'] + p)
    }
}

/// Whether `s` holds `://`.
fn has_scheme_mark(s: &str) -> (r: bool)
    ensures
        r == crate::text::contains_seq(s@, scheme_mark()),
{
    let n = s.unicode_len();
    let mut i: usize = 0;
    while i < n && n - i >= 3
        invariant
            n == s@.len(),
            i <= n,
            forall|j: int| 0 <= j < i && j + 3 <= n ==> !(#[trigger] s@[j] == ':' && s@[j + 1] == '/' && s@[j + 2] == '/'),
        decreases n - i,
    {
        if s.get_char(i) == ':' && s.get_char(i + 1) == '/' && s.get_char(i + 2) == '/' {
            assert(s@.subrange(i as int, i + 3) =~= scheme_mark());
            return true;
        }
        i = i + 1;
    }
    assert forall|j: int| 0 <= j && j + scheme_mark().len() <= s@.len()
        implies #[trigger] s@.subrange(j, j + scheme_mark().len()) != scheme_mark() by {
        if s@.subrange(j, j + 3) == scheme_mark() {
            assert(s@.subrange(j, j + 3)[0] == s@[j]);
            assert(s@.subrange(j, j + 3)[1] == s@[j + 1]);
            assert(s@.subrange(j, j + 3)[2] == s@[j + 2]);
        }
    }
    false
}

/// Whether `s` holds a carriage return or line feed.
fn has_line_break_exec(s: &str) -> (r: bool)
    ensures
        r == has_line_break(s@),
{
    let n = s.unicode_len();
    let mut i: usize = 0;
    while i < n
        invariant
            n == s@.len(),
            i <= n,
            forall|j: int| 0 <= j < i ==> !(s@[j] == '\r' || s@[j] == '\n'),
        decreases n - i,
    {
        let c = s.get_char(i);
        if c == '\r' || c == '\n' {
            return true;
        }
        i = i + 1;
    }
    false
}

/// Checks a raw API path and gives it a leading `/`.
pub fn normalize_api_path(p: &str) -> (r: Result<String, CliError>)
    ensures
        crate::error::res_view(r) == normalize_api_path_spec(p@),
{
    if has_scheme_mark(p) || has_line_break_exec(p) {
        return Err(usage("The API path must be relative to the configured base URL"));
    }
    if p.unicode_len() > 0 && p.get_char(0) == '/' {
        Ok(String::from_str(p))
    } else {
        let mut out = String::from_str("/");
        out.append(p);
        proof { reveal_strlit("/"); }
        assert(out@ =~= seq!['/'] + p@);
        Ok(out)
    }
}

/// Raw API paths stay under the base URL.
///
/// A path the `api` command accepts starts with `/` and holds neither `://`
/// nor a line break, so it can only name a path under the configured base
/// URL.
pub proof fn law_api_paths_are_relative(p: Seq<char>)
    requires
        normalize_api_path_spec(p) is Ok,
    ensures
        ({
            let q = normalize_api_path_spec(p)->Ok_0;
            &&& q.len() > 0 && q[0] == '/'
            &&& !crate::text::contains_seq(q, scheme_mark())
            &&& !has_line_break(q)
        }),
{
    let q = normalize_api_path_spec(p)->Ok_0;
    if !(p.len() > 0 && p[0] == '/') {
        assert(q =~= seq!['/'] + p);
        assert forall|i: int| 0 <= i && i + scheme_mark().len() <= q.len()
            implies #[trigger] q.subrange(i, i + scheme_mark().len()) != scheme_mark() by {
            if i == 0 {
                assert(q.subrange(0, 3)[0] == '/');
            } else {
                assert(q.subrange(i, i + 3) =~= p.subrange(i - 1, i + 2));
                assert(!(p.subrange(i - 1, i - 1 + scheme_mark().len()) == scheme_mark()));
            }
        }
        assert forall|i: int| 0 <= i < q.len() implies !(#[trigger] q[i] == '\r' || q[i] == '\n') by {
            if i > 0 {
                assert(q[i] == p[i - 1]);
            }
        }
    }
}

/// `i` is the first place `c` occurs in `s`.
pub open spec fn first_index_of(s: Seq<char>, c: char, i: int) -> bool {
    0 <= i < s.len() && s[i] == c && forall|j: int| 0 <= j < i ==> s[j] != c
}

/// `s` cut at the first `c`: the text before it and the text after it.
pub open spec fn split_once_spec(s: Seq<char>, c: char) -> Option<(Seq<char>, Seq<char>)> {
    if exists|i: int| first_index_of(s, c, i) {
        let i = choose|i: int| first_index_of(s, c, i);
        Some((s.subrange(0, i), s.subrange(i + 1, s.len() as int)))
    } else {
        None
    }
}

/// A raw query pair `KEY=VALUE`, cut at its first `=`.
pub open spec fn query_pair_spec(pair: Seq<char>) -> Result<(Seq<char>, Seq<char>), ErrorV> {
    match split_once_spec(pair, '=') {
        Some(kv) => Ok(kv),
        None => Err(ErrorV::Usage("Invalid query '"@ + pair + "'. Use KEY=VALUE"@)),
    }
}

/// Reads a raw query pair `KEY=VALUE`.
pub fn query_pair(pair: &String) -> (r: Result<(String, String), CliError>)
    ensures
        match r {
            Ok((k, v)) => query_pair_spec(pair@) == Ok::<(Seq<char>, Seq<char>), ErrorV>((k@, v@)),
            Err(e) => query_pair_spec(pair@) == Err::<(Seq<char>, Seq<char>), ErrorV>(e@),
        },
{
    let s = pair.as_str();
    let n = s.unicode_len();
    let mut i: usize = 0;
    while i < n
        invariant
            n == s@.len(),
            s@ == pair@,
            i <= n,
            forall|j: int| 0 <= j < i ==> s@[j] != '=',
        decreases n - i,
    {
        if s.get_char(i) == '=' {
            assert(first_index_of(s@, '=', i as int));
            proof {
                let k = choose|k: int| first_index_of(s@, '=', k);
                assert(first_index_of(s@, '=', k));
                if k < i {
                    assert(s@[k] != '=');
                } else if k > i {
                    assert(s@[i as int] != '=');
                }
                assert(k == i);
            }
            let key = String::from_str(s.substring_char(0, i));
            let value = String::from_str(s.substring_char(i + 1, n));
            return Ok((key, value));
        }
        i = i + 1;
    }
    assert(!exists|k: int| first_index_of(s@, '=', k));
    let mut text = String::from_str("Invalid query '");
    text.append(s);
    text.append("'. Use KEY=VALUE");
    Err(CliError::Usage(text))
}

/// The raw query pairs, read in order; the first bad one is reported.
pub open spec fn raw_query_spec(pairs: Seq<Seq<char>>) -> Result<Seq<(Seq<char>, Seq<char>)>, ErrorV>
    decreases pairs.len(),
{
    if pairs.len() == 0 {
        Ok(Seq::empty())
    } else {
        match raw_query_spec(pairs.drop_last()) {
            Err(e) => Err(e),
            Ok(q) => match query_pair_spec(pairs.last()) {
                Err(e) => Err(e),
                Ok(kv) => Ok(q.push(kv)),
            },
        }
    }
}

/// Reads the raw query pairs.
pub fn raw_query(pairs: &Vec<String>) -> (r: Result<Query, CliError>)
    ensures
        match r {
            Ok(q) => raw_query_spec(texts(pairs@)) == Ok::<Seq<(Seq<char>, Seq<char>)>, ErrorV>(query_view(q@)),
            Err(e) => raw_query_spec(texts(pairs@)) == Err::<Seq<(Seq<char>, Seq<char>)>, ErrorV>(e@),
        },
{
    let ghost t = texts(pairs@);
    let mut q: Query = no_query();
    let mut i: usize = 0;
    while i < pairs.len()
        invariant
            t == texts(pairs@),
            i <= pairs@.len(),
            raw_query_spec(t.subrange(0, i as int)) == Ok::<Seq<(Seq<char>, Seq<char>)>, ErrorV>(query_view(q@)),
        decreases pairs@.len() - i,
    {
        assert(t.subrange(0, i + 1).drop_last() =~= t.subrange(0, i as int));
        assert(t.subrange(0, i + 1).last() == pairs@[i as int]@);
        match query_pair(&pairs[i]) {
            Ok((k, v)) => {
                let ghost before = query_view(q@);
                q.push((k, v));
                assert(query_view(q@) =~= before.push((k@, v@)));
            },
            Err(e) => {
                assert(t.subrange(0, pairs@.len() as int) == t);
                proof { lemma_raw_query_error(t, i as int); }
                return Err(e);
            },
        }
        i = i + 1;
    }
    assert(t.subrange(0, pairs@.len() as int) == t);
    Ok(q)
}

/// Once a prefix of the pairs fails, so do all the pairs.
proof fn lemma_raw_query_error(t: Seq<Seq<char>>, i: int)
    requires
        0 <= i < t.len(),
        raw_query_spec(t.subrange(0, i + 1)) is Err,
    ensures
        raw_query_spec(t) == raw_query_spec(t.subrange(0, i + 1)),
    decreases t.len(),
{
    if t.len() == i + 1 {
        assert(t.subrange(0, i + 1) == t);
    } else {
        let shorter = t.drop_last();
        assert(shorter.subrange(0, i + 1) == t.subrange(0, i + 1));
        lemma_raw_query_error(shorter, i);
    }
}

/// The message when `--body` is not JSON.
pub open spec fn body_error_message(m: Seq<char>) -> Seq<char> {
    "--body must be valid JSON: "@ + m
}

/// What `api` sends: the path made relative, the query pairs, and the body
/// (an empty object when none was given). `GET` and `DELETE` send the query,
/// `POST` and `PATCH` the body.
pub open spec fn raw_api_spec(path: Seq<char>, query: Seq<Seq<char>>, body: Option<Result<JsonV, Seq<char>>>, method: HttpMethod) -> Result<PlanV, ErrorV> {
    match normalize_api_path_spec(path) {
        Err(e) => Err(e),
        Ok(p) => match raw_query_spec(query) {
            Err(e) => Err(e),
            Ok(q) => {
                let b = match body {
                    None => Ok(JsonV::Object(Seq::empty())),
                    Some(Ok(v)) => Ok(v),
                    Some(Err(m)) => Err(ErrorV::Usage(body_error_message(m))),
                };
                match b {
                    Err(e) => Err(e),
                    Ok(v) => Ok(match method {
                        HttpMethod::Get => get_spec(p, q),
                        HttpMethod::Post => body_spec(HttpMethod::Post, p, v),
                        HttpMethod::Patch => body_spec(HttpMethod::Patch, p, v),
                        HttpMethod::Delete => delete_spec(p, q),
                    }),
                }
            },
        },
    }
}

/// What an optional JSON text reads as.
pub open spec fn opt_parsed(o: Option<String>) -> Option<Result<JsonV, Seq<char>>> {
    match o {
        Some(t) => Some(crate::json_io::parsed_json_text(t@)),
        None => None,
    }
}

/// Plans the raw `api` command.
pub fn run_raw_api(args: &ApiArgs) -> (r: Result<RequestPlan, CliError>)
    ensures
        plan_result(r) == raw_api_spec(args.path@, texts(args.query@), opt_parsed(args.body), args.method),
{
    let p = match normalize_api_path(args.path.as_str()) {
        Ok(p) => p,
        Err(e) => return Err(e),
    };
    let q = match raw_query(&args.query) {
        Ok(q) => q,
        Err(e) => return Err(e),
    };
    let body = match &args.body {
        None => object(no_members()),
        Some(text) => match crate::json_io::read_json(text.as_str()) {
            Ok(v) => v,
            Err(m) => {
                let mut text = String::from_str("--body must be valid JSON: ");
                text.append(m.as_str());
                return Err(CliError::Usage(text));
            },
        },
    };
    match args.method {
        HttpMethod::Get => Ok(plan_get(p, q)),
        HttpMethod::Post => Ok(plan_body(HttpMethod::Post, p, body)),
        HttpMethod::Patch => Ok(plan_body(HttpMethod::Patch, p, body)),
        HttpMethod::Delete => Ok(plan_delete(p, q)),
    }
}

/* Fetching every page --------------------------------------------------- */

/// The page size used when fetching every page.
pub open spec fn fetch_page_size() -> nat {
    100
}

/// Fetching every page of a list, page after page.
#[derive(Debug)]
pub struct FetchAll {
    /// The query of the listing, without page or page size.
    pub base: Query,
    /// The page to fetch next, from 1.
    pub page: u64,
    /// The rows fetched so far, in order.
    pub rows: Vec<Json>,
}

/// The content of a [`FetchAll`].
pub struct FetchV {
    pub base: Seq<(Seq<char>, Seq<char>)>,
    pub page: u64,
    pub rows: Seq<JsonV>,
}

impl View for FetchAll {
    type V = FetchV;

    open spec fn view(&self) -> FetchV {
        FetchV { base: query_view(self.base@), page: self.page, rows: seq_views(self.rows@) }
    }
}

/// What follows a fetched page.
#[derive(Debug)]
pub enum FetchStep {
    /// Fetch the next page.
    More(FetchAll),
    /// Stop: this is the value to show.
    Done(Json),
}

/// The content of a [`FetchStep`].
pub enum FetchStepV {
    More(FetchV),
    Done(JsonV),
}

impl View for FetchStep {
    type V = FetchStepV;

    open spec fn view(&self) -> FetchStepV {
        match self {
            FetchStep::More(f) => FetchStepV::More(f@),
            FetchStep::Done(v) => FetchStepV::Done(v@),
        }
    }
}

/// Starts at page 1 with no rows.
pub fn fetch_all_start(base: Query) -> (r: FetchAll)
    ensures
        r@ == (FetchV { base: query_view(base@), page: 1, rows: Seq::empty() }),
{
    let rows: Vec<Json> = Vec::new();
    assert(seq_views(rows@) =~= Seq::<JsonV>::empty());
    FetchAll { base, page: 1, rows }
}

/// The query of a page: the listing's query, then the page and a page size
/// of 100.
pub open spec fn page_query_spec(base: Seq<(Seq<char>, Seq<char>)>, page: u64) -> Seq<(Seq<char>, Seq<char>)> {
    base + seq![("page"@, decimal(page as nat)), ("per_page"@, "100"@)]
}

/// A copy of a query.
fn copy_query(query: &Query) -> (r: Query)
    ensures
        query_view(r@) == query_view(query@),
{
    let mut out: Query = no_query();
    let mut i: usize = 0;
    while i < query.len()
        invariant
            i <= query@.len(),
            query_view(out@) == query_view(query@).subrange(0, i as int),
        decreases query@.len() - i,
    {
        let ghost before = query_view(out@);
        out.push((query[i].0.clone(), query[i].1.clone()));
        assert(query_view(out@) =~= before.push(query_view(query@)[i as int]));
        assert(query_view(query@).subrange(0, i + 1) =~= query_view(query@).subrange(0, i as int).push(
            query_view(query@)[i as int]));
        i = i + 1;
    }
    assert(query_view(query@).subrange(0, query@.len() as int) == query_view(query@));
    out
}

/// The query that fetches the next page.
pub fn page_query(state: &FetchAll) -> (r: Query)
    ensures
        query_view(r@) == page_query_spec(state@.base, state.page),
{
    let mut q = copy_query(&state.base);
    push_pair(&mut q, "page", u64_to_string(state.page));
    push_pair(&mut q, "per_page", String::from_str("100"));
    assert(query_view(q@) =~= page_query_spec(state@.base, state.page));
    q
}

/// After a page: a response without rows ends the fetch with that response;
/// otherwise its rows are kept, and a page with fewer than 100 rows ends the
/// fetch with every row kept.
pub open spec fn fetch_step_spec(state: FetchV, data: JsonV) -> FetchStepV {
    match crate::output::extract_array_spec(data) {
        None => FetchStepV::Done(data),
        Some(rows) => if rows.len() < fetch_page_size() {
            FetchStepV::Done(JsonV::Array(state.rows + rows))
        } else {
            FetchStepV::More(FetchV { base: state.base, page: (state.page + 1) as u64, rows: state.rows + rows })
        },
    }
}

/// Takes in the response to the page just fetched.
pub fn fetch_step(state: FetchAll, data: &Json) -> (r: FetchStep)
    requires
        state.page < u64::MAX,
    ensures
        r@ == fetch_step_spec(state@, data@),
{
    let FetchAll { base, page, rows } = state;
    let ghost old_rows = seq_views(rows@);
    match crate::output::extract_array(data) {
        None => FetchStep::Done(data.duplicate()),
        Some(items) => {
            let mut all = rows;
            let mut i: usize = 0;
            while i < items.len()
                invariant
                    i <= items@.len(),
                    seq_views(all@) == old_rows + seq_views(items@).subrange(0, i as int),
                decreases items@.len() - i,
            {
                let ghost before = seq_views(all@);
                all.push(items[i].duplicate());
                assert(seq_views(all@) =~= before.push(seq_views(items@)[i as int]));
                assert(seq_views(items@).subrange(0, i + 1) =~= seq_views(items@).subrange(0, i as int).push(
                    seq_views(items@)[i as int]));
                i = i + 1;
            }
            assert(seq_views(items@).subrange(0, items@.len() as int) == seq_views(items@));
            if items.len() < 100 {
                proof { crate::output::lemma_array_view(all); }
                FetchStep::Done(Json::Array(all))
            } else {
                FetchStep::More(FetchAll { base, page: page + 1, rows: all })
            }
        },
    }
}

/// Feeds responses to a fetch, one page after another, until it ends; `None`
/// when the responses run out first.
pub open spec fn fetch_run(state: FetchV, responses: Seq<JsonV>) -> Option<JsonV>
    decreases responses.len(),
{
    if responses.len() == 0 {
        None
    } else {
        match fetch_step_spec(state, responses[0]) {
            FetchStepV::Done(v) => Some(v),
            FetchStepV::More(next) => fetch_run(next, responses.drop_first()),
        }
    }
}

/// The rows of several pages, one page after the other.
pub open spec fn concat_pages(pages: Seq<Seq<JsonV>>) -> Seq<JsonV>
    decreases pages.len(),
{
    if pages.len() == 0 {
        Seq::empty()
    } else {
        pages[0] + concat_pages(pages.drop_first())
    }
}

/// Pages that are lists of rows: full ones, then a last one that is not.
pub open spec fn full_pages_then_short(pages: Seq<Seq<JsonV>>) -> bool {
    &&& pages.len() > 0
    &&& forall|i: int| 0 <= i < pages.len() - 1 ==> (#[trigger] pages[i]).len() == fetch_page_size()
    &&& pages.last().len() < fetch_page_size()
}

/// Fetching every page shows every row, in order.
///
/// Given list pages of 100 rows each and then a shorter one, fetching every
/// page ends with the last one and gives all their rows, page after page,
/// after the rows fetched before.
pub proof fn law_fetch_all_keeps_every_row(state: FetchV, pages: Seq<Seq<JsonV>>)
    requires
        full_pages_then_short(pages),
    ensures
        fetch_run(state, pages.map_values(|rows: Seq<JsonV>| JsonV::Array(rows)))
            == Some(JsonV::Array(state.rows + concat_pages(pages))),
    decreases pages.len(),
{
    let responses = pages.map_values(|rows: Seq<JsonV>| JsonV::Array(rows));
    assert(responses[0] == JsonV::Array(pages[0]));
    if pages.len() == 1 {
        assert(pages.last() == pages[0]);
        assert(concat_pages(pages.drop_first()) =~= Seq::<JsonV>::empty());
        assert(state.rows + concat_pages(pages) =~= state.rows + pages[0]);
    } else {
        assert(pages[0].len() == fetch_page_size());
        let next = FetchV { base: state.base, page: (state.page + 1) as u64, rows: state.rows + pages[0] };
        let rest = pages.drop_first();
        assert(rest.last() == pages.last());
        assert forall|i: int| 0 <= i < rest.len() - 1 implies (#[trigger] rest[i]).len() == fetch_page_size() by {
            assert(rest[i] == pages[i + 1]);
        }
        assert(responses.drop_first() =~= rest.map_values(|rows: Seq<JsonV>| JsonV::Array(rows)));
        law_fetch_all_keeps_every_row(next, rest);
        assert(next.rows + concat_pages(rest) =~= state.rows + concat_pages(pages));
    }
}

/// A response that lists 100 rows or more.
pub open spec fn full_page(data: JsonV) -> bool {
    crate::output::extract_array_spec(data) matches Some(rows) && rows.len() >= 100
}

/// Each full page leads to the page after it.
///
/// After a page of 100 rows or more on page `k`, the fetch goes on with
/// page `k + 1` (its query sends `page=k+1`), the same listing query, and the
/// page's rows kept after the earlier ones; after a shorter page, or a
/// response without rows, it stops.
pub proof fn law_fetch_asks_for_the_next_page(state: FetchV, data: JsonV)
    requires
        state.page < u64::MAX,
    ensures
        full_page(data) ==> {
            let rows = crate::output::extract_array_spec(data)->Some_0;
            let step = fetch_step_spec(state, data);
            &&& step is More
            &&& step->More_0.page == state.page + 1
            &&& step->More_0.base == state.base
            &&& step->More_0.rows == state.rows + rows
            &&& page_query_spec(step->More_0.base, step->More_0.page) == state.base + seq![
                ("page"@, decimal((state.page + 1) as nat)),
                ("per_page"@, "100"@),
            ]
        },
        !full_page(data) ==> fetch_step_spec(state, data) is Done,
{
}

/// The pages a fetch asks for, one per response it is given, until it stops.
pub open spec fn pages_requested(state: FetchV, responses: Seq<JsonV>) -> Seq<u64>
    decreases responses.len(),
{
    if responses.len() == 0 {
        Seq::empty()
    } else {
        seq![state.page] + match fetch_step_spec(state, responses[0]) {
            FetchStepV::Done(_) => Seq::<u64>::empty(),
            FetchStepV::More(next) => pages_requested(next, responses.drop_first()),
        }
    }
}

/// Fetching every page asks for each page once, in order.
///
/// Given list pages of 100 rows each and then a shorter one, a fetch that
/// starts at page `k` asks for pages `k`, `k + 1`, ... up to the short one,
/// each once, and no page after it.
pub proof fn law_fetch_asks_each_page_once(state: FetchV, pages: Seq<Seq<JsonV>>)
    requires
        full_pages_then_short(pages),
        state.page + pages.len() <= u64::MAX,
    ensures
        pages_requested(state, pages.map_values(|rows: Seq<JsonV>| JsonV::Array(rows)))
            == Seq::new(pages.len(), |i: int| (state.page + i) as u64),
    decreases pages.len(),
{
    let responses = pages.map_values(|rows: Seq<JsonV>| JsonV::Array(rows));
    assert(responses[0] == JsonV::Array(pages[0]));
    if pages.len() == 1 {
        assert(pages.last() == pages[0]);
        assert(pages_requested(state, responses) =~= Seq::new(pages.len(), |i: int| (state.page + i) as u64));
    } else {
        assert(pages[0].len() == fetch_page_size());
        law_fetch_asks_for_the_next_page(state, responses[0]);
        let next = fetch_step_spec(state, responses[0])->More_0;
        let rest = pages.drop_first();
        assert(rest.last() == pages.last());
        assert forall|i: int| 0 <= i < rest.len() - 1 implies (#[trigger] rest[i]).len() == fetch_page_size() by {
            assert(rest[i] == pages[i + 1]);
        }
        assert(responses.drop_first() =~= rest.map_values(|rows: Seq<JsonV>| JsonV::Array(rows)));
        law_fetch_asks_each_page_once(next, rest);
        assert(pages_requested(state, responses) =~= Seq::new(pages.len(), |i: int| (state.page + i) as u64));
    }
}

/// What a response shows: for a list, its rows when it has some; otherwise
/// the whole response.
pub open spec fn shown_value_spec(data: JsonV, list: bool) -> JsonV {
    if list {
        match crate::output::extract_array_spec(data) {
            Some(rows) => JsonV::Array(rows),
            None => data,
        }
    } else {
        data
    }
}

/// The value printed for a response.
pub fn shown_value(data: &Json, list: bool) -> (r: Json)
    ensures
        r@ == shown_value_spec(data@, list),
{
    if list {
        match crate::output::extract_array(data) {
            Some(rows) => {
                let mut out: Vec<Json> = Vec::new();
                let mut i: usize = 0;
                while i < rows.len()
                    invariant
                        i <= rows@.len(),
                        seq_views(out@) == seq_views(rows@).subrange(0, i as int),
                    decreases rows@.len() - i,
                {
                    let ghost before = seq_views(out@);
                    out.push(rows[i].duplicate());
                    assert(seq_views(out@) =~= before.push(seq_views(rows@)[i as int]));
                    assert(seq_views(rows@).subrange(0, i + 1) =~= seq_views(rows@).subrange(0, i as int).push(
                        seq_views(rows@)[i as int]));
                    i = i + 1;
                }
                assert(seq_views(rows@).subrange(0, rows@.len() as int) == seq_views(rows@));
                proof { crate::output::lemma_array_view(out); }
                Json::Array(out)
            },
            None => data.duplicate(),
        }
    } else {
        data.duplicate()
    }
}

/// The note after every page was fetched: how many records, when the
/// result is a list.
pub open spec fn fetched_note_spec(value: JsonV) -> Option<Seq<char>> {
    match value {
        JsonV::Array(rows) => Some("Fetched "@ + decimal(rows.len()) + " records"@),
        _ => None,
    }
}

/// The note after every page was fetched.
pub fn fetched_note(value: &Json) -> (r: Option<String>)
    ensures
        opt_view(r) == fetched_note_spec(value@),
{
    match value {
        Json::Array(rows) => {
            let mut t = String::from_str("Fetched ");
            t.append(u64_to_string(rows.len() as u64).as_str());
            t.append(" records");
            Some(t)
        },
        _ => None,
    }
}

/* Status, report, diff, export ----------------------------------------- */

/// The content of a list of planned requests.
pub open spec fn plans_view(v: Seq<RequestPlan>) -> Seq<PlanV> {
    v.map_values(|p: RequestPlan| p@)
}

/// The four `GET`s of a dashboard, each with the same query.
pub open spec fn four_gets(paths: Seq<Seq<char>>, query: Seq<(Seq<char>, Seq<char>)>) -> Seq<PlanV> {
    paths.map_values(|p: Seq<char>| get_spec(p, query))
}

/// Plans four `GET`s with the same query.
fn plan_four(p0: &str, p1: &str, p2: &str, p3: &str, q: Query) -> (r: Vec<RequestPlan>)
    ensures
        plans_view(r@) == four_gets(seq![p0@, p1@, p2@, p3@], query_view(q@)),
{
    let mut out: Vec<RequestPlan> = Vec::new();
    out.push(plan_get(path(p0), copy_query(&q)));
    out.push(plan_get(path(p1), copy_query(&q)));
    out.push(plan_get(path(p2), copy_query(&q)));
    out.push(plan_get(path(p3), q));
    assert(plans_view(out@) =~= four_gets(seq![p0@, p1@, p2@, p3@], query_view(q@)));
    out
}

/// The sources of `status`: summary, share of voice, time series and the
/// prompt summary.
pub open spec fn status_paths() -> Seq<Seq<char>> {
    seq!["/metrics/summary"@, "/metrics/sov"@, "/metrics/timeseries"@, "/metrics/prompt_summary"@]
}

/// The query of `status`: the project and the range in days.
pub open spec fn status_query_spec(range: u32, id: u64) -> Seq<(Seq<char>, Seq<char>)> {
    project_pairs(id) + seq![("range"@, decimal(range as nat))]
}

/// Plans the requests of `status`.
pub fn status_requests(range: u32, project: Option<u64>) -> (r: Result<Vec<RequestPlan>, CliError>)
    ensures
        r matches Ok(v) ==> project matches Some(id) && plans_view(v@) == four_gets(status_paths(), status_query_spec(range, id)),
        r matches Err(e) ==> project is None && e@ == no_project(),
        r is Ok <==> project is Some,
{
    let pid = match project_id(project) {
        Ok(pid) => pid,
        Err(e) => return Err(e),
    };
    let mut q = query_for(pid);
    push_pair(&mut q, "range", u64_to_string(range as u64));
    assert(query_view(q@) =~= status_query_spec(range, pid));
    Ok(plan_four("/metrics/summary", "/metrics/sov", "/metrics/timeseries", "/metrics/prompt_summary", q))
}

/// The dashboard `status` prints.
pub open spec fn status_value_spec(range: u32, summary: JsonV, sov: JsonV, timeseries: JsonV, prompts: JsonV) -> JsonV {
    JsonV::Object(seq![
        ("range_days"@, jnum(range as u64)),
        ("summary"@, summary),
        ("share_of_voice"@, sov),
        ("timeseries"@, timeseries),
        ("prompts"@, prompts),
    ])
}

/// Assembles the dashboard of `status` from the four answers.
pub fn status_value(range: u32, summary: Json, sov: Json, timeseries: Json, prompts: Json) -> (r: Json)
    ensures
        r@ == status_value_spec(range, summary@, sov@, timeseries@, prompts@),
{
    let ghost want = status_value_spec(range, summary@, sov@, timeseries@, prompts@);
    let mut e = no_members();
    put(&mut e, "range_days", json_num(range as u64));
    put(&mut e, "summary", summary);
    put(&mut e, "share_of_voice", sov);
    put(&mut e, "timeseries", timeseries);
    put(&mut e, "prompts", prompts);
    assert(entries_view(e@) =~= want->Object_0);
    object(e)
}

/// The sources of `report`: summary, share of voice, top sources and the
/// prompt summary.
pub open spec fn report_paths() -> Seq<Seq<char>> {
    seq!["/metrics/summary"@, "/metrics/sov"@, "/metrics/top_sources"@, "/metrics/prompt_summary"@]
}

/// The query of `report`: the project, the range in days, ten per page.
pub open spec fn report_query_spec(range: u32, id: u64) -> Seq<(Seq<char>, Seq<char>)> {
    project_pairs(id) + seq![("range"@, decimal(range as nat)), ("per_page"@, "10"@)]
}

/// Plans the requests of `report`.
pub fn report_requests(range: u32, project: Option<u64>) -> (r: Result<Vec<RequestPlan>, CliError>)
    ensures
        r matches Ok(v) ==> project matches Some(id) && plans_view(v@) == four_gets(report_paths(), report_query_spec(range, id)),
        r matches Err(e) ==> project is None && e@ == no_project(),
        r is Ok <==> project is Some,
{
    let pid = match project_id(project) {
        Ok(pid) => pid,
        Err(e) => return Err(e),
    };
    let mut q = query_for(pid);
    push_pair(&mut q, "range", u64_to_string(range as u64));
    push_pair(&mut q, "per_page", String::from_str("10"));
    assert(query_view(q@) =~= report_query_spec(range, pid));
    Ok(plan_four("/metrics/summary", "/metrics/sov", "/metrics/top_sources", "/metrics/prompt_summary", q))
}

/// The report `report` prints.
pub open spec fn report_value_spec(range: u32, summary: JsonV, sov: JsonV, sources: JsonV, prompts: JsonV) -> JsonV {
    JsonV::Object(seq![
        ("range_days"@, jnum(range as u64)),
        ("summary"@, summary),
        ("share_of_voice"@, sov),
        ("top_sources"@, sources),
        ("top_prompts"@, prompts),
    ])
}

/// Assembles the report from the four answers.
pub fn report_value(range: u32, summary: Json, sov: Json, sources: Json, prompts: Json) -> (r: Json)
    ensures
        r@ == report_value_spec(range, summary@, sov@, sources@, prompts@),
{
    let ghost want = report_value_spec(range, summary@, sov@, sources@, prompts@);
    let mut e = no_members();
    put(&mut e, "range_days", json_num(range as u64));
    put(&mut e, "summary", summary);
    put(&mut e, "share_of_voice", sov);
    put(&mut e, "top_sources", sources);
    put(&mut e, "top_prompts", prompts);
    assert(entries_view(e@) =~= want->Object_0);
    object(e)
}

/// The headings of the Markdown report, in order, over the members
/// `summary`, `share_of_voice`, `top_sources` and `top_prompts`.
pub open spec fn report_headings() -> Seq<Seq<char>> {
    seq!["Summary"@, "Share of voice"@, "Top sources"@, "Top prompts"@]
}

/// One section of the Markdown report: its heading, then the JSON text in a
/// fenced block.
pub open spec fn report_section(heading: Seq<char>, json: Seq<char>) -> Seq<char> {
    "## "@ + heading + "\n\n```json\n"@ + json + "\n```\n\n"@
}

/// The sections from the first `n`.
pub open spec fn report_sections(texts: Seq<Seq<char>>, n: nat) -> Seq<char>
    decreases n,
{
    if n == 0 {
        Seq::empty()
    } else {
        report_sections(texts, (n - 1) as nat) + report_section(report_headings()[n - 1], texts[n - 1])
    }
}

/// The Markdown report: a title, the period, then one section per part.
pub open spec fn report_markdown_spec(range: u32, texts: Seq<Seq<char>>) -> Seq<char> {
    "# LLM Pulse report\n\nPeriod: last "@ + decimal(range as nat) + " days\n\n"@ + report_sections(texts, 4)
}

/// Writes the Markdown report, given the pretty JSON text of its summary,
/// share of voice, top sources and top prompts, in that order.
pub fn report_markdown(range: u32, texts: &Vec<String>) -> (r: String)
    requires
        texts@.len() == 4,
    ensures
        r@ == report_markdown_spec(range, crate::text::texts(texts@)),
{
    let ghost t = crate::text::texts(texts@);
    let mut out = String::from_str("# LLM Pulse report\n\nPeriod: last ");
    out.append(u64_to_string(range as u64).as_str());
    out.append(" days\n\n");
    let ghost head = out@;
    let mut i: usize = 0;
    while i < 4
        invariant
            texts@.len() == 4,
            t == crate::text::texts(texts@),
            i <= 4,
            out@ == head + report_sections(t, i as nat),
        decreases 4 - i,
    {
        let heading = if i == 0 {
            "Summary"
        } else if i == 1 {
            "Share of voice"
        } else if i == 2 {
            "Top sources"
        } else {
            "Top prompts"
        };
        assert(heading@ == report_headings()[i as int]);
        out.append("## ");
        out.append(heading);
        out.append("\n\n```json\n");
        out.append(texts[i].as_str());
        out.append("\n```\n\n");
        assert(out@ =~= head + report_sections(t, (i + 1) as nat));
        i = i + 1;
    }
    out
}

/// The date with this number of days from the first day of the Common Era
/// (day 1 is 0001-01-01), written `YYYY-MM-DD`; `None` outside the calendar
/// `chrono` covers.
pub uninterp spec fn iso_date(days: i32) -> Option<Seq<char>>;

/// `chrono::NaiveDate::from_num_days_from_ce_opt`, then the date's `Display`
/// (ISO 8601, `YYYY-MM-DD`). The contract only names the result.
#[verifier::external_body]
fn date_text(days: i32) -> (r: Option<String>)
    ensures
        opt_view(r) == iso_date(days),
{
    match chrono::NaiveDate::from_num_days_from_ce_opt(days) {
        Some(date) => Some(date.to_string()),
        None => None,
    }
}

/// The text of a day number, when the calendar has it.
pub open spec fn day_text_spec(days: int) -> Option<Seq<char>> {
    if i32::MIN <= days <= i32::MAX { iso_date(days as i32) } else { None }
}

/// The text of a day number, when the calendar has it.
fn day_text(days: i64) -> (r: Option<String>)
    ensures
        opt_view(r) == day_text_spec(days as int),
{
    if days < -2147483648i64 || days > 2147483647i64 {
        None
    } else {
        date_text(days as i32)
    }
}

/// `n - 1`, or 0 for 0.
pub open spec fn less_one(n: u32) -> int {
    if n == 0 { 0 } else { n - 1 }
}

/// The two periods `diff` compares, as day numbers: the current one ends
/// today and spans `range` days; the previous one ends the day before and
/// spans `compare` days (a span of 0 counts as 1).
pub open spec fn diff_days_spec(today: i32, range: u32, compare: u32) -> (int, int, int, int) {
    let current_to = today as int;
    let current_from = current_to - less_one(range);
    let previous_to = current_from - 1;
    let previous_from = previous_to - less_one(compare);
    (current_from, current_to, previous_from, previous_to)
}

/// The number of days a period of `n` days spans: `n`, and at least one.
pub open spec fn span_days(n: u32) -> int {
    if n == 0 { 1 } else { n as int }
}

/// The two periods of `diff` are back to back and as long as asked.
///
/// The current period ends today and spans `--range` days; the previous
/// period ends the day before the current one starts and spans `--compare`
/// days, whatever `--range` is (a length of 0 counts as one day).
pub proof fn law_diff_periods(today: i32, range: u32, compare: u32)
    ensures
        ({
            let (cf, ct, pf, pt) = diff_days_spec(today, range, compare);
            &&& ct == today as int
            &&& ct - cf + 1 == span_days(range)
            &&& pt == cf - 1
            &&& pt - pf + 1 == span_days(compare)
        }),
{
}

/// The periods of `diff`, as dates.
#[derive(Debug)]
pub struct DiffDates {
    pub current_from: String,
    pub current_to: String,
    pub previous_from: String,
    pub previous_to: String,
}

/// The periods of `diff` as dates; `None` when one of them falls outside
/// the calendar (the command cannot run then).
pub fn diff_dates(today: i32, range: u32, compare: u32) -> (r: Option<DiffDates>)
    ensures
        ({
            let (cf, ct, pf, pt) = diff_days_spec(today, range, compare);
            match r {
                Some(d) => day_text_spec(cf) == Some(d.current_from@) && day_text_spec(ct) == Some(d.current_to@)
                    && day_text_spec(pf) == Some(d.previous_from@) && day_text_spec(pt) == Some(d.previous_to@),
                None => day_text_spec(cf) is None || day_text_spec(ct) is None || day_text_spec(pf) is None
                    || day_text_spec(pt) is None,
            }
        }),
{
    let current_to: i64 = today as i64;
    let current_from: i64 = current_to - (if range == 0 { 0 } else { (range - 1) as i64 });
    let previous_to: i64 = current_from - 1;
    let previous_from: i64 = previous_to - (if compare == 0 { 0 } else { (compare - 1) as i64 });
    let cf = match day_text(current_from) {
        Some(t) => t,
        None => return None,
    };
    let ct = match day_text(current_to) {
        Some(t) => t,
        None => return None,
    };
    let pf = match day_text(previous_from) {
        Some(t) => t,
        None => return None,
    };
    let pt = match day_text(previous_to) {
        Some(t) => t,
        None => return None,
    };
    Some(DiffDates { current_from: cf, current_to: ct, previous_from: pf, previous_to: pt })
}

/// The query of one period: the project, then `from` and `to`.
pub open spec fn period_query_spec(id: u64, from: Seq<char>, to: Seq<char>) -> Seq<(Seq<char>, Seq<char>)> {
    project_pairs(id) + seq![("from"@, from), ("to"@, to)]
}

/// What `diff` asks for: the summary of the current period, then of the
/// previous one.
pub open spec fn diff_requests_spec(d: DiffDates, project: Option<u64>) -> Result<Seq<PlanV>, ErrorV> {
    match project {
        None => Err(no_project()),
        Some(id) => Ok(seq![
            get_spec("/metrics/summary"@, period_query_spec(id, d.current_from@, d.current_to@)),
            get_spec("/metrics/summary"@, period_query_spec(id, d.previous_from@, d.previous_to@)),
        ]),
    }
}

/// The query of one period.
fn period_query(id: u64, from: &String, to: &String) -> (q: Query)
    ensures
        query_view(q@) == period_query_spec(id, from@, to@),
{
    let mut q = query_for(id);
    push_pair(&mut q, "from", from.clone());
    push_pair(&mut q, "to", to.clone());
    assert(query_view(q@) =~= period_query_spec(id, from@, to@));
    q
}

/// Plans the requests of `diff`.
pub fn diff_requests(d: &DiffDates, project: Option<u64>) -> (r: Result<Vec<RequestPlan>, CliError>)
    ensures
        match r {
            Ok(v) => diff_requests_spec(*d, project) == Ok::<Seq<PlanV>, ErrorV>(plans_view(v@)),
            Err(e) => diff_requests_spec(*d, project) == Err::<Seq<PlanV>, ErrorV>(e@),
        },
{
    let pid = match project_id(project) {
        Ok(pid) => pid,
        Err(e) => return Err(e),
    };
    let mut out: Vec<RequestPlan> = Vec::new();
    out.push(plan_get(path("/metrics/summary"), period_query(pid, &d.current_from, &d.current_to)));
    out.push(plan_get(path("/metrics/summary"), period_query(pid, &d.previous_from, &d.previous_to)));
    assert(plans_view(out@) =~= diff_requests_spec(*d, project)->Ok_0);
    Ok(out)
}

/// `diff` asks for the summary of each period, the current one first.
///
/// With a project, `diff` plans two `GET /metrics/summary` requests for that
/// project: the first from the current period's first day to its last, the
/// second from the previous period's first day to its last.
pub proof fn law_diff_asks_for_both_periods(d: DiffDates, id: u64)
    ensures
        diff_requests_spec(d, Some(id)) is Ok,
        ({
            let plans = diff_requests_spec(d, Some(id))->Ok_0;
            &&& plans.len() == 2
            &&& plans[0].method == HttpMethod::Get && plans[1].method == HttpMethod::Get
            &&& plans[0].path == "/metrics/summary"@ && plans[1].path == "/metrics/summary"@
            &&& plans[0].query == seq![
                ("project_id"@, decimal(id as nat)),
                ("from"@, d.current_from@),
                ("to"@, d.current_to@),
            ]
            &&& plans[1].query == seq![
                ("project_id"@, decimal(id as nat)),
                ("from"@, d.previous_from@),
                ("to"@, d.previous_to@),
            ]
        }),
{
    let plans = diff_requests_spec(d, Some(id))->Ok_0;
    assert(plans[0].query =~= seq![
        ("project_id"@, decimal(id as nat)),
        ("from"@, d.current_from@),
        ("to"@, d.current_to@),
    ]);
    assert(plans[1].query =~= seq![
        ("project_id"@, decimal(id as nat)),
        ("from"@, d.previous_from@),
        ("to"@, d.previous_to@),
    ]);
}

/// One period of the comparison: its dates and its summary.
pub open spec fn period_value(from: Seq<char>, to: Seq<char>, data: JsonV) -> JsonV {
    JsonV::Object(seq![("from"@, JsonV::Str(from)), ("to"@, JsonV::Str(to)), ("data"@, data)])
}

/// The comparison `diff` prints.
pub open spec fn diff_value_spec(d: DiffDates, current: JsonV, previous: JsonV, change: JsonV) -> JsonV {
    JsonV::Object(seq![
        ("current"@, period_value(d.current_from@, d.current_to@, current)),
        ("previous"@, period_value(d.previous_from@, d.previous_to@, previous)),
        ("change"@, change),
    ])
}

/// One period of the comparison.
fn period(from: &String, to: &String, data: Json) -> (r: Json)
    ensures
        r@ == period_value(from@, to@, data@),
{
    let ghost want = period_value(from@, to@, data@);
    let mut e = no_members();
    put(&mut e, "from", json_str(from));
    put(&mut e, "to", json_str(to));
    put(&mut e, "data", data);
    assert(entries_view(e@) =~= want->Object_0);
    object(e)
}

/// Assembles the comparison from the two summaries and their difference.
pub fn diff_value(d: &DiffDates, current: Json, previous: Json, change: Json) -> (r: Json)
    ensures
        r@ == diff_value_spec(*d, current@, previous@, change@),
{
    let ghost want = diff_value_spec(*d, current@, previous@, change@);
    let mut e = no_members();
    put(&mut e, "current", period(&d.current_from, &d.current_to, current));
    put(&mut e, "previous", period(&d.previous_from, &d.previous_to, previous));
    put(&mut e, "change", change);
    assert(entries_view(e@) =~= want->Object_0);
    object(e)
}

/// The listings `export` writes, by file name.
pub open spec fn export_resources_spec() -> Seq<(Seq<char>, Seq<char>)> {
    seq![
        ("prompts"@, "/dimensions/prompts"@),
        ("prompt_executions"@, "/dimensions/prompt_executions"@),
        ("mentions"@, "/dimensions/mentions"@),
        ("citations"@, "/dimensions/citations"@),
        ("competitor_mentions"@, "/dimensions/competitor_mentions"@),
        ("competitor_citations"@, "/dimensions/competitor_citations"@),
        ("answers"@, "/answers"@),
        ("sentiments"@, "/sentiments"@),
    ]
}

/// The listings `export` writes: a file name and the path it is read from.
pub fn export_resources() -> (r: Vec<(String, String)>)
    ensures
        r@.map_values(|p: (String, String)| (p.0@, p.1@)) == export_resources_spec(),
{
    let mut out: Vec<(String, String)> = Vec::new();
    out.push((String::from_str("prompts"), String::from_str("/dimensions/prompts")));
    out.push((String::from_str("prompt_executions"), String::from_str("/dimensions/prompt_executions")));
    out.push((String::from_str("mentions"), String::from_str("/dimensions/mentions")));
    out.push((String::from_str("citations"), String::from_str("/dimensions/citations")));
    out.push((String::from_str("competitor_mentions"), String::from_str("/dimensions/competitor_mentions")));
    out.push((String::from_str("competitor_citations"), String::from_str("/dimensions/competitor_citations")));
    out.push((String::from_str("answers"), String::from_str("/answers")));
    out.push((String::from_str("sentiments"), String::from_str("/sentiments")));
    assert(out@.map_values(|p: (String, String)| (p.0@, p.1@)) =~= export_resources_spec());
    out
}

/// The query every export listing starts from: the project and the dates.
pub open spec fn export_query_spec(args: ExportArgs, id: u64) -> Seq<(Seq<char>, Seq<char>)> {
    project_pairs(id) + opt_pair("from"@, opt_view(args.from)) + opt_pair("to"@, opt_view(args.to))
}

/// Builds the query every export listing starts from.
pub fn export_query(args: &ExportArgs, project: Option<u64>) -> (r: Result<Query, CliError>)
    ensures
        r matches Ok(q) ==> project matches Some(id) && query_view(q@) == export_query_spec(*args, id),
        r matches Err(e) ==> project is None && e@ == no_project(),
        r is Ok <==> project is Some,
{
    let pid = match project_id(project) {
        Ok(pid) => pid,
        Err(e) => return Err(e),
    };
    let mut q = query_for(pid);
    q.push_opt("from", copy_str(&args.from));
    q.push_opt("to", copy_str(&args.to));
    Ok(q)
}

/* Login and configuration ---------------------------------------------- */

/// Where `login` takes the API key from.
#[derive(Debug)]
pub enum KeySource {
    /// `--api-key`.
    Flag(String),
    /// `LLMPULSE_API_KEY`.
    Environment(String),
    /// A hidden prompt.
    Prompt,
}

/// The content of a [`KeySource`].
pub enum KeySourceV {
    Flag(Seq<char>),
    Environment(Seq<char>),
    Prompt,
}

impl View for KeySource {
    type V = KeySourceV;

    open spec fn view(&self) -> KeySourceV {
        match self {
            KeySource::Flag(k) => KeySourceV::Flag(k@),
            KeySource::Environment(k) => KeySourceV::Environment(k@),
            KeySource::Prompt => KeySourceV::Prompt,
        }
    }
}

/// The key comes from the flag, else the environment, else a prompt when
/// input is interactive; without any of them `login` is refused.
pub open spec fn login_key_spec(flag: Option<Seq<char>>, env: Option<Seq<char>>, interactive: bool) -> Result<KeySourceV, ErrorV> {
    match flag {
        Some(k) => Ok(KeySourceV::Flag(k)),
        None => match env {
            Some(k) => Ok(KeySourceV::Environment(k)),
            None => if interactive {
                Ok(KeySourceV::Prompt)
            } else {
                Err(ErrorV::Usage("Pass --api-key or set LLMPULSE_API_KEY when login is not interactive"@))
            },
        },
    }
}

/// Decides where `login` takes the API key from.
pub fn login_key(flag: &Option<String>, env: &Option<String>, interactive: bool) -> (r: Result<KeySource, CliError>)
    ensures
        crate::error::res_view(r) == login_key_spec(opt_view(*flag), opt_view(*env), interactive),
{
    match flag {
        Some(k) => Ok(KeySource::Flag(k.clone())),
        None => match env {
            Some(k) => Ok(KeySource::Environment(k.clone())),
            None => if interactive {
                Ok(KeySource::Prompt)
            } else {
                Err(usage("Pass --api-key or set LLMPULSE_API_KEY when login is not interactive"))
            },
        },
    }
}

/// Where `login` stands once the key is known.
#[derive(Debug, Clone, Copy, PartialEq, Eq)]
pub enum LoginPhase {
    /// Nothing done yet.
    Start,
    /// The key was accepted by the API.
    Verified,
    /// The key (and the base URL, if given) were saved.
    KeySaved,
    /// The user is picking the default project.
    Choosing,
    /// The default project is known: picked, or none.
    ProjectKnown(Option<u64>),
    /// Everything is saved.
    Finished,
}

/// What `login` does next.
#[derive(Debug)]
pub enum LoginAction {
    /// Send this request to check the key.
    Verify(RequestPlan),
    /// Save these settings, in order, as `config set` does.
    Save(Vec<(String, String)>),
    /// Let the user pick the default project, then go on from
    /// `ProjectKnown` with the pick.
    ChooseProject,
    /// Report that the configuration was saved.
    Finish,
}

/// The content of a [`LoginAction`].
pub enum LoginActionV {
    Verify(PlanV),
    Save(Seq<(Seq<char>, Seq<char>)>),
    ChooseProject,
    Finish,
}

impl View for LoginAction {
    type V = LoginActionV;

    open spec fn view(&self) -> LoginActionV {
        match self {
            LoginAction::Verify(p) => LoginActionV::Verify(p@),
            LoginAction::Save(pairs) => LoginActionV::Save(query_view(pairs@)),
            LoginAction::ChooseProject => LoginActionV::ChooseProject,
            LoginAction::Finish => LoginActionV::Finish,
        }
    }
}

/// The setting that records the default project.
pub open spec fn project_setting(id: u64) -> Seq<(Seq<char>, Seq<char>)> {
    seq![("default_project_id"@, decimal(id as nat))]
}

/// The steps of `login`: check the key with `ping`; then save the key and
/// any `--base-url`; then take the default project from `--project-id`, or
/// let the user pick one when input is interactive, and save it; then
/// report. Each step gives the action and the phase that follows it.
pub open spec fn login_step_spec(key: Seq<char>, g: GlobalArgs, interactive: bool, phase: LoginPhase) -> (LoginActionV, LoginPhase) {
    match phase {
        LoginPhase::Start => (LoginActionV::Verify(ping_spec(g)), LoginPhase::Verified),
        LoginPhase::Verified => (
            LoginActionV::Save(seq![("api_key"@, key)] + match g.base_url {
                Some(u) => seq![("base_url"@, u@)],
                None => Seq::empty(),
            }),
            LoginPhase::KeySaved,
        ),
        LoginPhase::KeySaved => match g.project_id {
            Some(id) => (LoginActionV::Save(project_setting(id)), LoginPhase::Finished),
            None => if interactive {
                (LoginActionV::ChooseProject, LoginPhase::Choosing)
            } else {
                (LoginActionV::Finish, LoginPhase::Finished)
            },
        },
        LoginPhase::Choosing => (LoginActionV::ChooseProject, LoginPhase::Choosing),
        LoginPhase::ProjectKnown(Some(id)) => (LoginActionV::Save(project_setting(id)), LoginPhase::Finished),
        LoginPhase::ProjectKnown(None) => (LoginActionV::Finish, LoginPhase::Finished),
        LoginPhase::Finished => (LoginActionV::Finish, LoginPhase::Finished),
    }
}

/// Decides the next step of `login`.
pub fn login_step(key: &String, g: &GlobalArgs, interactive: bool, phase: LoginPhase) -> (r: (LoginAction, LoginPhase))
    ensures
        (r.0@, r.1) == login_step_spec(key@, *g, interactive, phase),
{
    match phase {
        LoginPhase::Start => (LoginAction::Verify(run_ping(g)), LoginPhase::Verified),
        LoginPhase::Verified => {
            let mut pairs = no_query();
            push_pair(&mut pairs, "api_key", key.clone());
            match &g.base_url {
                Some(u) => push_pair(&mut pairs, "base_url", u.clone()),
                None => {},
            }
            assert(query_view(pairs@) =~= login_step_spec(key@, *g, interactive, phase).0->Save_0);
            (LoginAction::Save(pairs), LoginPhase::KeySaved)
        },
        LoginPhase::KeySaved => match g.project_id {
            Some(id) => (LoginAction::Save(project_save(id)), LoginPhase::Finished),
            None => if interactive {
                (LoginAction::ChooseProject, LoginPhase::Choosing)
            } else {
                (LoginAction::Finish, LoginPhase::Finished)
            },
        },
        LoginPhase::Choosing => (LoginAction::ChooseProject, LoginPhase::Choosing),
        LoginPhase::ProjectKnown(Some(id)) => (LoginAction::Save(project_save(id)), LoginPhase::Finished),
        LoginPhase::ProjectKnown(None) => (LoginAction::Finish, LoginPhase::Finished),
        LoginPhase::Finished => (LoginAction::Finish, LoginPhase::Finished),
    }
}

/// The setting that records the default project.
fn project_save(id: u64) -> (r: Vec<(String, String)>)
    ensures
        query_view(r@) == project_setting(id),
{
    let mut pairs = no_query();
    push_pair(&mut pairs, "default_project_id", u64_to_string(id));
    assert(query_view(pairs@) =~= project_setting(id));
    pairs
}

/// `login` checks the key before it saves anything.
///
/// From the start, the first step sends `ping` with the new key, and no
/// setting is saved before that check has passed: saving happens only in
/// the phases that follow it.
pub proof fn law_login_verifies_before_saving(key: Seq<char>, g: GlobalArgs, interactive: bool, phase: LoginPhase)
    ensures
        login_step_spec(key, g, interactive, LoginPhase::Start)
            == (LoginActionV::Verify(ping_spec(g)), LoginPhase::Verified),
        login_step_spec(key, g, interactive, phase).0 is Save ==> phase != LoginPhase::Start,
        login_step_spec(key, g, interactive, phase).1 != LoginPhase::Start,
{
}

/// The project a listed item offers: its numeric `id`, labelled with its
/// `name` (or `Unnamed project`) and the id.
pub open spec fn project_choice(item: JsonV) -> Option<(u64, Seq<char>)> {
    match crate::json::get_spec(item, "id"@) {
        Some(JsonV::Number(NumberV::PosInt(id))) => {
            let name = match crate::json::get_spec(item, "name"@) {
                Some(JsonV::Str(n)) => n,
                _ => "Unnamed project"@,
            };
            Some((id, name + " ("@ + decimal(id as nat) + ")"@))
        },
        _ => None,
    }
}

/// The projects a list offers, in order; items without a numeric id are
/// skipped.
pub open spec fn project_choices_of(items: Seq<JsonV>) -> Seq<(u64, Seq<char>)>
    decreases items.len(),
{
    if items.len() == 0 {
        Seq::empty()
    } else {
        let rest = project_choices_of(items.drop_last());
        match project_choice(items.last()) {
            Some(c) => rest.push(c),
            None => rest,
        }
    }
}

/// The projects the answer to a project listing offers; `None` when it
/// holds no list.
pub open spec fn project_choices_spec(data: JsonV) -> Option<Seq<(u64, Seq<char>)>> {
    match crate::output::extract_array_spec(data) {
        Some(items) => Some(project_choices_of(items)),
        None => None,
    }
}

/// The content of a list of choices.
pub open spec fn choices_view(c: Seq<(u64, String)>) -> Seq<(u64, Seq<char>)> {
    c.map_values(|p: (u64, String)| (p.0, p.1@))
}

/// The project one listed item offers.
fn item_choice(item: &Json) -> (r: Option<(u64, String)>)
    ensures
        match r {
            Some((id, label)) => project_choice(item@) == Some((id, label@)),
            None => project_choice(item@) is None,
        },
{
    match item.get("id") {
        Some(Json::Number(JsonNumber::PosInt(id))) => {
            let mut label = match item.get("name") {
                Some(Json::String(n)) => n.clone(),
                _ => String::from_str("Unnamed project"),
            };
            label.append(" (");
            label.append(u64_to_string(*id).as_str());
            label.append(")");
            Some((*id, label))
        },
        _ => None,
    }
}

/// The projects the answer to a project listing offers.
pub fn project_choices(data: &Json) -> (r: Option<Vec<(u64, String)>>)
    ensures
        match r {
            Some(c) => project_choices_spec(data@) == Some(choices_view(c@)),
            None => project_choices_spec(data@) is None,
        },
{
    let items = match crate::output::extract_array(data) {
        Some(items) => items,
        None => return None,
    };
    let ghost views = seq_views(items@);
    let mut out: Vec<(u64, String)> = Vec::new();
    let mut i: usize = 0;
    while i < items.len()
        invariant
            views == seq_views(items@),
            i <= items@.len(),
            choices_view(out@) == project_choices_of(views.subrange(0, i as int)),
        decreases items@.len() - i,
    {
        let ghost before = choices_view(out@);
        assert(views.subrange(0, i + 1).drop_last() =~= views.subrange(0, i as int));
        assert(views.subrange(0, i + 1).last() == items@[i as int]@);
        match item_choice(&items[i]) {
            Some(c) => {
                out.push(c);
                assert(choices_view(out@) =~= before.push((c.0, c.1@)));
            },
            None => {},
        }
        i = i + 1;
    }
    assert(views.subrange(0, items@.len() as int) == views);
    Some(out)
}

/// How the default project is picked from the choices.
#[derive(Debug)]
pub enum ProjectPick {
    /// Nothing to pick.
    Nothing,
    /// The only project.
    Only(u64),
    /// Ask the user to pick one of these labels.
    Ask(Vec<String>),
}

/// No choice gives no project, one gives it, more are offered by label.
pub fn pick_project(choices: &Vec<(u64, String)>) -> (r: ProjectPick)
    ensures
        choices@.len() == 0 ==> r is Nothing,
        choices@.len() == 1 ==> r == ProjectPick::Only(choices@[0].0),
        choices@.len() > 1 ==> (r matches ProjectPick::Ask(labels)
            && texts(labels@) == choices_view(choices@).map_values(|c: (u64, Seq<char>)| c.1)),
{
    if choices.len() == 0 {
        return ProjectPick::Nothing;
    }
    if choices.len() == 1 {
        return ProjectPick::Only(choices[0].0);
    }
    let ghost want = choices_view(choices@).map_values(|c: (u64, Seq<char>)| c.1);
    let mut labels: Vec<String> = Vec::new();
    let mut i: usize = 0;
    while i < choices.len()
        invariant
            want == choices_view(choices@).map_values(|c: (u64, Seq<char>)| c.1),
            i <= choices@.len(),
            texts(labels@) == want.subrange(0, i as int),
        decreases choices@.len() - i,
    {
        let ghost before = texts(labels@);
        labels.push(choices[i].1.clone());
        assert(texts(labels@) =~= before.push(want[i as int]));
        assert(want.subrange(0, i + 1) =~= want.subrange(0, i as int).push(want[i as int]));
        i = i + 1;
    }
    assert(want.subrange(0, choices@.len() as int) == want);
    ProjectPick::Ask(labels)
}

/// One line of `config profiles`: `* ` before the active profile, two
/// spaces before the others.
pub open spec fn profile_line(active: Option<Seq<char>>, name: Seq<char>) -> Seq<char> {
    (if active == Some(name) { "* "@ } else { "  "@ }) + name
}

/// The lines `config profiles` prints, one per profile in order.
pub fn profile_lines(active: &Option<String>, profiles: &Vec<String>) -> (r: Vec<String>)
    ensures
        texts(r@) == texts(profiles@).map_values(|n: Seq<char>| profile_line(opt_view(*active), n)),
{
    let ghost want = texts(profiles@).map_values(|n: Seq<char>| profile_line(opt_view(*active), n));
    let mut out: Vec<String> = Vec::new();
    let mut i: usize = 0;
    while i < profiles.len()
        invariant
            want == texts(profiles@).map_values(|n: Seq<char>| profile_line(opt_view(*active), n)),
            i <= profiles@.len(),
            texts(out@) == want.subrange(0, i as int),
        decreases profiles@.len() - i,
    {
        let name = &profiles[i];
        let is_active = match active {
            Some(a) => str_eq(a.as_str(), name.as_str()),
            None => false,
        };
        let mut line = if is_active { String::from_str("* ") } else { String::from_str("  ") };
        line.append(name.as_str());
        let ghost before = texts(out@);
        out.push(line);
        assert(texts(out@) =~= before.push(want[i as int]));
        assert(want.subrange(0, i + 1) =~= want.subrange(0, i as int).push(want[i as int]));
        i = i + 1;
    }
    assert(want.subrange(0, profiles@.len() as int) == want);
    out
}

/// What `config get` prints of a value: an API key masked, anything else
/// as it is; `None` for a key that cannot be cut for masking.
pub open spec fn shown_setting_spec(key: Seq<char>, value: Seq<char>) -> Option<Seq<char>> {
    if key == "api_key"@ {
        if crate::config::maskable(vstd::utf8::encode_utf8(value)) {
            Some(crate::config::masked_text(value))
        } else {
            None
        }
    } else {
        Some(value)
    }
}

/// What `config get` prints of a value.
pub fn shown_setting(key: &str, value: String) -> (r: Option<String>)
    requires
        vstd::utf8::encode_utf8(value@).len() <= usize::MAX,
    ensures
        opt_view(r) == shown_setting_spec(key@, value@),
{
    if str_eq(key, "api_key") {
        crate::config::try_mask_api_key(value.as_str())
    } else {
        Some(value)
    }
}

/// The member of an optional setting.
pub open spec fn setting_member(key: Seq<char>, value: Option<JsonV>) -> Seq<(Seq<char>, JsonV)> {
    match value {
        Some(v) => seq![(key, v)],
        None => Seq::empty(),
    }
}

/// What `config show` prints: the settings present, the API key masked;
/// `None` when the key cannot be cut for masking.
pub open spec fn shown_config_spec(c: crate::config::ConfigV) -> Option<JsonV> {
    let key = match c.api_key {
        Some(k) => if crate::config::maskable(vstd::utf8::encode_utf8(k)) {
            Some(Some(JsonV::Str(crate::config::masked_text(k))))
        } else {
            None
        },
        None => Some(None),
    };
    match key {
        None => None,
        Some(k) => Some(JsonV::Object(
            setting_member("api_key"@, k) + setting_member("base_url"@, match c.base_url {
                Some(u) => Some(JsonV::Str(u)),
                None => None,
            }) + setting_member("default_project_id"@, match c.default_project_id {
                Some(id) => Some(jnum(id)),
                None => None,
            }) + setting_member("active_profile"@, match c.active_profile {
                Some(p) => Some(JsonV::Str(p)),
                None => None,
            }),
        )),
    }
}

/// Adds a member when the setting is present.
fn put_setting(entries: &mut Vec<(String, Json)>, key: &str, value: Option<Json>)
    ensures
        entries_view(final(entries)@) == entries_view(old(entries)@) + setting_member(key@, match value {
            Some(v) => Some(v@),
            None => None,
        }),
{
    match value {
        Some(v) => {
            let ghost vv = v@;
            put(entries, key, v);
            assert(entries_view(entries@) =~= entries_view(old(entries)@) + seq![(key@, vv)]);
        },
        None => {
            assert(entries_view(entries@) =~= entries_view(old(entries)@) + Seq::<(Seq<char>, JsonV)>::empty());
        },
    }
}

/// What `config show` prints.
pub fn shown_config(c: &crate::config::Config) -> (r: Option<Json>)
    requires
        c.api_key matches Some(k) ==> vstd::utf8::encode_utf8(k@).len() <= usize::MAX,
    ensures
        match r {
            Some(j) => shown_config_spec(c@) == Some(j@),
            None => shown_config_spec(c@) is None,
        },
{
    let key = match &c.api_key {
        Some(k) => match crate::config::try_mask_api_key(k.as_str()) {
            Some(m) => Some(Json::String(m)),
            None => return None,
        },
        None => None,
    };
    let mut e = no_members();
    put_setting(&mut e, "api_key", key);
    put_setting(&mut e, "base_url", match &c.base_url {
        Some(u) => Some(Json::String(u.clone())),
        None => None,
    });
    put_setting(&mut e, "default_project_id", match c.default_project_id {
        Some(id) => Some(json_num(id)),
        None => None,
    });
    put_setting(&mut e, "active_profile", match &c.active_profile {
        Some(p) => Some(Json::String(p.clone())),
        None => None,
    });
    Some(object(e))
}

/* The dispatcher --------------------------------------------------------- */

/// The one request a command sends; `None` for the commands that send none
/// or several (`login`, `status`, `config`, `diff`, `report`, `watch`,
/// `export`, `completions`).
pub open spec fn request_spec(cmd: Command, g: GlobalArgs, project: Option<u64>) -> Option<Result<PlanV, ErrorV>> {
    match cmd {
        Command::Ping => Some(Ok(ping_spec(g))),
        Command::Dimensions { command } => Some(dimensions_spec(command, g, project)),
        Command::Metrics { command } => Some(metrics_spec(command, g, project)),
        Command::SearchConsole { command } => Some(search_console_spec(command, g, project)),
        Command::Citations { command } => Some(citations_spec(command, g, project)),
        Command::Answers { command } => Some(answers_spec(command, g, project)),
        Command::Sentiments { command } => Some(sentiments_spec(command, g, project)),
        Command::Recommendations { command } => Some(recommendations_spec(command, g, project)),
        Command::IntelligenceTasks { command } => Some(intelligence_tasks_spec(command, g, project)),
        Command::Prompts { command } => Some(prompts_spec(command, project)),
        Command::Competitors { command } => Some(competitors_spec(command, project)),
        Command::Projects { command } => Some(projects_spec(command)),
        Command::Collections { command } => Some(collections_spec(command, project)),
        Command::Annotations { command } => Some(annotations_spec(command, g, project)),
        Command::Reports { command } => Some(reports_spec(command, project)),
        Command::Webhooks { command } => Some(webhooks_spec(command, g, project)),
        Command::Api(args) => Some(raw_api_spec(args.path@, texts(args.query@), opt_parsed(args.body), args.method)),
        _ => None,
    }
}

/// The content of a dispatch.
pub open spec fn dispatch_view(r: Option<Result<RequestPlan, CliError>>) -> Option<Result<PlanV, ErrorV>> {
    match r {
        Some(p) => Some(plan_result(p)),
        None => None,
    }
}

/// Plans the request of a command. `project` is the project the
/// configuration resolved to; deletions are confirmed before (see
/// [`deletion_target`]).
pub fn plan_request(cmd: &Command, g: &GlobalArgs, project: Option<u64>) -> (r: Option<Result<RequestPlan, CliError>>)
    ensures
        dispatch_view(r) == request_spec(*cmd, *g, project),
{
    match cmd {
        Command::Ping => Some(Ok(run_ping(g))),
        Command::Dimensions { command } => Some(run_dimensions(command, g, project)),
        Command::Metrics { command } => Some(run_metrics(command, g, project)),
        Command::SearchConsole { command } => Some(run_search_console(command, g, project)),
        Command::Citations { command } => Some(run_citations(command, g, project)),
        Command::Answers { command } => Some(run_answers(command, g, project)),
        Command::Sentiments { command } => Some(run_sentiments(command, g, project)),
        Command::Recommendations { command } => Some(run_recommendations(command, g, project)),
        Command::IntelligenceTasks { command } => Some(run_intelligence_tasks(command, g, project)),
        Command::Prompts { command } => Some(run_prompts(command, project)),
        Command::Competitors { command } => Some(run_competitors(command, project)),
        Command::Projects { command } => Some(run_projects(command)),
        Command::Collections { command } => Some(run_collections(command, project)),
        Command::Annotations { command } => Some(run_annotations(command, g, project)),
        Command::Reports { command } => Some(run_reports(command, project)),
        Command::Webhooks { command } => Some(run_webhooks(command, g, project)),
        Command::Api(args) => Some(run_raw_api(args)),
        _ => None,
    }
}

} // verus!
