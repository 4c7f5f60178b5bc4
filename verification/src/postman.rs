//! Postman collections (format v2.1): the collection model, and the conversions
//! between a collection and a project.
use vstd::prelude::*;

use crate::projects::{
    EndpointView, Header, HeaderView, PersistedEndpoint, PersistedProject, PersistedVariable,
    ProjectView, VariableType, VariableView,
};
use crate::requests::endpoint_content_type;
use crate::text::{append_str, concat_all, join_lines, lowercase, str_eq, to_lowercase};

verus! {

pub const POSTMAN_JSON_SCHEMA: &'static str =
    "https://schema.getpostman.com/json/collection/v2.1.0/collection.json";

#[derive(Debug, Clone, Copy, PartialEq, Eq)]
pub enum PostmanVariableType {
    String,
    Boolean,
    Any,
    Number,
}

#[derive(Debug)]
pub struct PostmanVariable {
    pub id: Option<String>,
    pub key: Option<String>,
    pub value: Option<String>,
    pub variable_type: Option<PostmanVariableType>,
    pub name: Option<String>,
    pub system: Option<bool>,
    pub disabled: Option<bool>,
}

pub struct PostmanVariableView {
    pub id: Option<Seq<char>>,
    pub key: Option<Seq<char>>,
    pub value: Option<Seq<char>>,
    pub variable_type: Option<PostmanVariableType>,
    pub name: Option<Seq<char>>,
    pub system: Option<bool>,
    pub disabled: Option<bool>,
}

impl DeepView for PostmanVariable {
    type V = PostmanVariableView;

    open spec fn deep_view(&self) -> PostmanVariableView {
        PostmanVariableView {
            id: self.id.deep_view(),
            key: self.key.deep_view(),
            value: self.value.deep_view(),
            variable_type: self.variable_type,
            name: self.name.deep_view(),
            system: self.system,
            disabled: self.disabled,
        }
    }
}

#[derive(Debug)]
pub struct PostmanInformation {
    pub name: String,
    pub description: String,
    pub schema: String,
}

pub struct PostmanInformationView {
    pub name: Seq<char>,
    pub description: Seq<char>,
    pub schema: Seq<char>,
}

impl DeepView for PostmanInformation {
    type V = PostmanInformationView;

    open spec fn deep_view(&self) -> PostmanInformationView {
        PostmanInformationView {
            name: self.name@,
            description: self.description@,
            schema: self.schema@,
        }
    }
}

#[derive(Debug)]
pub struct PostmanKV {
    pub key: String,
    pub value: String,
}

pub struct PostmanKVView {
    pub key: Seq<char>,
    pub value: Seq<char>,
}

impl DeepView for PostmanKV {
    type V = PostmanKVView;

    open spec fn deep_view(&self) -> PostmanKVView {
        PostmanKVView { key: self.key@, value: self.value@ }
    }
}

#[derive(Debug)]
pub struct PostmanFormData {
    pub key: String,
    pub value: String,
    pub form_type: String,
}

pub struct PostmanFormDataView {
    pub key: Seq<char>,
    pub value: Seq<char>,
    pub form_type: Seq<char>,
}

impl DeepView for PostmanFormData {
    type V = PostmanFormDataView;

    open spec fn deep_view(&self) -> PostmanFormDataView {
        PostmanFormDataView { key: self.key@, value: self.value@, form_type: self.form_type@ }
    }
}

#[derive(Debug, Clone, Copy, PartialEq, Eq)]
pub enum PostmanBodyMode {
    Raw,
    UrlEncoded,
    FormData,
    File,
    GraphQL,
}

#[derive(Debug)]
pub struct GraphQL {
    pub query: String,
    pub variables: String,
}

pub struct GraphQLView {
    pub query: Seq<char>,
    pub variables: Seq<char>,
}

impl DeepView for GraphQL {
    type V = GraphQLView;

    open spec fn deep_view(&self) -> GraphQLView {
        GraphQLView { query: self.query@, variables: self.variables@ }
    }
}

#[derive(Debug)]
pub struct RawOptions {
    pub language: String,
}

#[derive(Debug)]
pub struct PostmanBodyOptions {
    pub raw: RawOptions,
}

impl DeepView for PostmanBodyOptions {
    type V = Seq<char>;

    /// The language of the raw body.
    open spec fn deep_view(&self) -> Seq<char> {
        self.raw.language@
    }
}

#[derive(Debug)]
pub struct PostmanBody {
    pub options: Option<PostmanBodyOptions>,
    pub mode: PostmanBodyMode,
    pub urlencoded: Option<Vec<PostmanKV>>,
    pub raw: Option<String>,
    pub graphql: Option<GraphQL>,
    pub formdata: Option<Vec<PostmanFormData>>,
}

pub struct PostmanBodyView {
    pub options: Option<Seq<char>>,
    pub mode: PostmanBodyMode,
    pub urlencoded: Option<Seq<PostmanKVView>>,
    pub raw: Option<Seq<char>>,
    pub graphql: Option<GraphQLView>,
    pub formdata: Option<Seq<PostmanFormDataView>>,
}

impl DeepView for PostmanBody {
    type V = PostmanBodyView;

    open spec fn deep_view(&self) -> PostmanBodyView {
        PostmanBodyView {
            options: self.options.deep_view(),
            mode: self.mode,
            urlencoded: self.urlencoded.deep_view(),
            raw: self.raw.deep_view(),
            graphql: self.graphql.deep_view(),
            formdata: self.formdata.deep_view(),
        }
    }
}

#[derive(Debug)]
pub struct PostmanRequestUrl {
    pub raw: String,
}

#[derive(Debug)]
pub struct PostmanRequest {
    pub description: Option<String>,
    pub url: PostmanRequestUrl,
    pub method: String,
    pub header: Vec<PostmanKV>,
    pub body: Option<PostmanBody>,
}

pub struct PostmanRequestView {
    pub description: Option<Seq<char>>,
    pub url: Seq<char>,
    pub method: Seq<char>,
    pub header: Seq<PostmanKVView>,
    pub body: Option<PostmanBodyView>,
}

impl DeepView for PostmanRequest {
    type V = PostmanRequestView;

    open spec fn deep_view(&self) -> PostmanRequestView {
        PostmanRequestView {
            description: self.description.deep_view(),
            url: self.url.raw@,
            method: self.method@,
            header: self.header.deep_view(),
            body: self.body.deep_view(),
        }
    }
}

#[derive(Debug)]
pub struct PostmanItem {
    pub id: Option<String>,
    pub name: String,
    pub request: PostmanRequest,
}

pub struct PostmanItemView {
    pub id: Option<Seq<char>>,
    pub name: Seq<char>,
    pub request: PostmanRequestView,
}

impl DeepView for PostmanItem {
    type V = PostmanItemView;

    open spec fn deep_view(&self) -> PostmanItemView {
        PostmanItemView {
            id: self.id.deep_view(),
            name: self.name@,
            request: self.request.deep_view(),
        }
    }
}

/// A Postman collection.
#[derive(Debug)]
pub struct PostmanJson {
    pub info: PostmanInformation,
    pub item: Vec<PostmanItem>,
    pub variable: Option<Vec<PostmanVariable>>,
}

pub struct PostmanJsonView {
    pub info: PostmanInformationView,
    pub item: Seq<PostmanItemView>,
    pub variable: Option<Seq<PostmanVariableView>>,
}

impl DeepView for PostmanJson {
    type V = PostmanJsonView;

    open spec fn deep_view(&self) -> PostmanJsonView {
        PostmanJsonView {
            info: self.info.deep_view(),
            item: self.item.deep_view(),
            variable: self.variable.deep_view(),
        }
    }
}

impl View for PostmanJson {
    type V = PostmanJsonView;

    open spec fn view(&self) -> PostmanJsonView {
        self.deep_view()
    }
}

/// A hexadecimal digit, lowercase.
pub open spec fn hex_digit(d: int) -> char {
    if d < 10 {
        (48 + d) as char
    } else {
        (87 + d) as char
    }
}

/// How serde_json writes character `c` inside a JSON string: `"` and `\`
/// escaped with a backslash, backspace, tab, newline, form feed and carriage
/// return as `\b \t \n \f \r`, other characters below `0x20` as `\u00XX`
/// (lowercase hexadecimal), every other character as it is.
pub open spec fn json_escaped_char(c: char) -> Seq<char> {
    let u = c as u32;
    if c == '"' {
        seq!['\\', '"']
    } else if c == '\\' {
        seq!['\\', '\\']
    } else if u == 0x08 {
        seq!['\\', 'b']
    } else if u == 0x09 {
        seq!['\\', 't']
    } else if u == 0x0a {
        seq!['\\', 'n']
    } else if u == 0x0c {
        seq!['\\', 'f']
    } else if u == 0x0d {
        seq!['\\', 'r']
    } else if u < 0x20 {
        seq!['\\', 'u', '0', '0', hex_digit((u / 16) as int), hex_digit((u % 16) as int)]
    } else {
        seq![c]
    }
}

/// The characters of `s`, each as serde_json writes it inside a JSON string.
pub open spec fn json_escaped(s: Seq<char>) -> Seq<char>
    decreases s.len(),
{
    if s.len() == 0 {
        Seq::empty()
    } else {
        json_escaped(s.drop_last()) + json_escaped_char(s.last())
    }
}

/// The JSON string literal of `s`.
pub open spec fn json_string(s: Seq<char>) -> Seq<char> {
    seq!['"'] + json_escaped(s) + seq!['"']
}

/// The compact JSON object with the string entries `query` and `variables`, in
/// that order.
pub open spec fn graphql_json(query: Seq<char>, variables: Seq<char>) -> Seq<char> {
    "{\"query\":"@ + json_string(query) + ",\"variables\":"@ + json_string(variables) + "}"@
}

/// What `uuid::Uuid::new_v5(&Uuid::NAMESPACE_URL, seed)` writes as text.
pub uninterp spec fn uuid_v5_url(seed: Seq<char>) -> Seq<char>;

/// `serde_json::to_string` from serde_json on a map holding the entries `query`
/// and `variables`, the JSON form of a GraphQL body (a sorted map, so `query`
/// comes first, as in the body). serde_json's compact writer puts out
/// `{"query":<string>,"variables":<string>}` with its string escapes; writing
/// into a string with string keys does not fail (an error would be `None`).
#[verifier::external_body]
fn graphql_to_json(query: &str, variables: &str) -> (r: Option<String>)
    ensures
        r.deep_view() == Some(graphql_json(query@, variables@)),
{
    serde_json::to_string(
        &std::collections::BTreeMap::from([("query", query), ("variables", variables)]),
    ).ok()
}

/// `uuid::Uuid::new_v5` from uuid with the URL namespace, written with
/// `to_string`: the name-based (SHA-1) UUID of `seed`, returned as the named
/// result `uuid_v5_url`.
#[verifier::external_body]
fn create_uuid(seed: &str) -> (r: String)
    ensures
        r@ == uuid_v5_url(seed@),
{
    uuid::Uuid::new_v5(&uuid::Uuid::NAMESPACE_URL, seed.as_bytes()).to_string()
}

/// `std::time::SystemTime::now` from std, written with `{:?}`. Nothing is stated
/// of the text: it depends on the clock.
#[verifier::external_body]
fn now_text() -> (r: String) {
    format!("{:?}", std::time::SystemTime::now())
}

fn clone_opt(o: &Option<String>) -> (r: Option<String>)
    ensures
        r.deep_view() == o.deep_view(),
{
    match o {
        Some(s) => Some(s.clone()),
        None => None,
    }
}

/// The text of a `key=value` entry.
pub open spec fn kv_text(kv: PostmanKVView) -> Seq<char> {
    kv.key + "="@ + kv.value
}

/// The text of a form-data entry: `key="value"`.
pub open spec fn form_data_text(fd: PostmanFormDataView) -> Seq<char> {
    fd.key + "=\""@ + fd.value + "\""@
}

/// The text of a GraphQL body: its JSON.
pub open spec fn graphql_text(g: GraphQLView) -> Seq<char> {
    graphql_json(g.query, g.variables)
}

/// `key=value` (`String::from` on an entry).
pub fn kv_string(kv: &PostmanKV) -> (r: String)
    ensures
        r@ == kv_text(kv.deep_view()),
{
    let mut r = kv.key.clone();
    append_str(&mut r, "=");
    append_str(&mut r, kv.value.as_str());
    r
}

/// `key="value"` (`String::from` on a form-data entry).
pub fn form_data_string(fd: &PostmanFormData) -> (r: String)
    ensures
        r@ == form_data_text(fd.deep_view()),
{
    let mut r = fd.key.clone();
    append_str(&mut r, "=\"");
    append_str(&mut r, fd.value.as_str());
    append_str(&mut r, "\"");
    r
}

/// The JSON of a GraphQL body (`String::from` on it).
pub fn graphql_string(g: &GraphQL) -> (r: String)
    ensures
        r@ == graphql_text(g.deep_view()),
{
    match graphql_to_json(g.query.as_str(), g.variables.as_str()) {
        Some(json) => json,
        None => String::new(),
    }
}

/// The body mode and body of an imported request.
pub open spec fn imported_body(b: Option<PostmanBodyView>) -> (Seq<char>, Seq<char>) {
    match b {
        Some(body) => match body.mode {
            PostmanBodyMode::Raw => (
                "raw"@,
                match body.raw {
                    Some(r) => r,
                    None => Seq::empty(),
                },
            ),
            PostmanBodyMode::UrlEncoded => (
                "urlencoded"@,
                match body.urlencoded {
                    Some(kvs) => concat_all(kvs.map_values(|kv: PostmanKVView| kv_text(kv))),
                    None => Seq::empty(),
                },
            ),
            PostmanBodyMode::FormData => (
                "formdata"@,
                match body.formdata {
                    Some(fds) => join_lines(
                        fds.map_values(|fd: PostmanFormDataView| form_data_text(fd)),
                    ),
                    None => Seq::empty(),
                },
            ),
            PostmanBodyMode::GraphQL => (
                "graphql"@,
                match body.graphql {
                    Some(g) => graphql_text(g),
                    None => Seq::empty(),
                },
            ),
            PostmanBodyMode::File => ("raw"@, Seq::empty()),
        },
        None => ("raw"@, Seq::empty()),
    }
}

/// The raw type of an imported request: the language of the raw body options,
/// nothing without options, and `Text` without a body.
pub open spec fn imported_raw_type(b: Option<PostmanBodyView>) -> Seq<char> {
    match b {
        Some(body) => match body.options {
            Some(language) => language,
            None => Seq::empty(),
        },
        None => "Text"@,
    }
}

/// The endpoint a collection item becomes.
pub open spec fn imported_endpoint(it: PostmanItemView) -> EndpointView {
    EndpointView {
        name: it.name,
        url: it.request.url,
        method: it.request.method,
        headers: it.request.header.map_values(
            |kv: PostmanKVView| HeaderView { name: kv.key, value: kv.value },
        ),
        body: imported_body(it.request.body).1,
        body_mode: imported_body(it.request.body).0,
        raw_type: imported_raw_type(it.request.body),
    }
}

/// The project variable a collection variable becomes.
pub open spec fn imported_variable(v: PostmanVariableView) -> VariableView {
    VariableView {
        id: v.id,
        key: v.key,
        value: v.value,
        variable_type: match v.variable_type {
            Some(PostmanVariableType::String) => Some(VariableType::String),
            Some(PostmanVariableType::Boolean) => Some(VariableType::Boolean),
            Some(PostmanVariableType::Any) => Some(VariableType::Any),
            Some(PostmanVariableType::Number) => Some(VariableType::Number),
            None => None,
        },
        name: v.name,
        system: v.system,
        disabled: v.disabled,
    }
}

/// The project a collection becomes: its name, one endpoint per item and one
/// variable per collection variable.
pub open spec fn imported_project(j: PostmanJsonView) -> ProjectView {
    ProjectView {
        name: j.info.name,
        endpoints: j.item.map_values(|it: PostmanItemView| imported_endpoint(it)),
        variable: match j.variable {
            Some(vs) => vs.map_values(|v: PostmanVariableView| imported_variable(v)),
            None => Seq::empty(),
        },
    }
}

fn import_body(body: &Option<PostmanBody>) -> (r: (String, String))
    ensures
        (r.0@, r.1@) == imported_body(body.deep_view()),
{
    match body {
        Some(postman_body) => match postman_body.mode {
            PostmanBodyMode::Raw => ("raw".to_owned(), match &postman_body.raw {
                Some(raw) => raw.clone(),
                None => String::new(),
            }),
            PostmanBodyMode::UrlEncoded => match &postman_body.urlencoded {
                Some(urlencoded) => {
                    let ghost kvs = urlencoded.deep_view();
                    let ghost texts = kvs.map_values(|kv: PostmanKVView| kv_text(kv));
                    let mut acc = String::new();
                    let mut i: usize = 0;
                    while i < urlencoded.len()
                        invariant
                            i <= urlencoded.len(),
                            kvs == urlencoded.deep_view(),
                            texts == kvs.map_values(|kv: PostmanKVView| kv_text(kv)),
                            acc@ == concat_all(texts.take(i as int)),
                        decreases urlencoded.len() - i,
                    {
                        let encoded = kv_string(&urlencoded[i]);
                        append_str(&mut acc, encoded.as_str());
                        proof {
                            assert(texts.take(i as int + 1).drop_last() =~= texts.take(i as int));
                        }
                        i += 1;
                    }
                    proof {
                        assert(texts.take(i as int) =~= texts);
                    }
                    ("urlencoded".to_owned(), acc)
                },
                None => ("urlencoded".to_owned(), String::new()),
            },
            PostmanBodyMode::FormData => match &postman_body.formdata {
                Some(formdata) => {
                    let ghost fds = formdata.deep_view();
                    let ghost texts = fds.map_values(|fd: PostmanFormDataView| form_data_text(fd));
                    let mut acc = String::new();
                    let mut i: usize = 0;
                    while i < formdata.len()
                        invariant
                            i <= formdata.len(),
                            fds == formdata.deep_view(),
                            texts == fds.map_values(|fd: PostmanFormDataView| form_data_text(fd)),
                            acc@ == join_lines(texts.take(i as int)),
                        decreases formdata.len() - i,
                    {
                        let line = form_data_string(&formdata[i]);
                        proof {
                            assert(texts.take(i as int + 1).drop_last() =~= texts.take(i as int));
                        }
                        if i > 0 {
                            append_str(&mut acc, "\n");
                        }
                        append_str(&mut acc, line.as_str());
                        proof {
                            if i == 0 {
                                assert(acc@ =~= texts.take(1)[0]);
                            } else {
                                reveal_strlit("\n");
                                assert(acc@ =~= join_lines(texts.take(i as int)) + seq!['\n']
                                    + texts[i as int]);
                            }
                        }
                        i += 1;
                    }
                    proof {
                        assert(texts.take(i as int) =~= texts);
                    }
                    ("formdata".to_owned(), acc)
                },
                None => ("formdata".to_owned(), String::new()),
            },
            PostmanBodyMode::GraphQL => match &postman_body.graphql {
                Some(graphql) => ("graphql".to_owned(), graphql_string(graphql)),
                None => ("graphql".to_owned(), String::new()),
            },
            _ => ("raw".to_owned(), String::new()),
        },
        None => ("raw".to_owned(), String::new()),
    }
}

fn import_endpoint(item: &PostmanItem) -> (r: PersistedEndpoint)
    ensures
        r@ == imported_endpoint(item.deep_view()),
{
    let (body_mode, body) = import_body(&item.request.body);
    let raw_type = match &item.request.body {
        Some(b) => match &b.options {
            Some(options) => options.raw.language.clone(),
            None => String::new(),
        },
        None => "Text".to_owned(),
    };
    let mut headers: Vec<Header> = Vec::new();
    let ghost kvs = item.request.header.deep_view();
    let mut i: usize = 0;
    while i < item.request.header.len()
        invariant
            i <= item.request.header.len(),
            kvs == item.request.header.deep_view(),
            headers.deep_view() =~= kvs.take(i as int).map_values(
                |kv: PostmanKVView| HeaderView { name: kv.key, value: kv.value },
            ),
        decreases item.request.header.len() - i,
    {
        let kv = &item.request.header[i];
        let ghost before = headers.deep_view();
        headers.push(Header { name: kv.key.clone(), value: kv.value.clone() });
        proof {
            assert(headers.deep_view() =~= before.push(HeaderView { name: kvs[i as int].key, value: kvs[i as int].value }));
            assert(kvs.take(i as int + 1).map_values(
                |kv: PostmanKVView| HeaderView { name: kv.key, value: kv.value },
            ) =~= kvs.take(i as int).map_values(
                |kv: PostmanKVView| HeaderView { name: kv.key, value: kv.value },
            ).push(HeaderView { name: kvs[i as int].key, value: kvs[i as int].value }));
        }
        i += 1;
    }
    proof {
        assert(kvs.take(i as int) =~= kvs);
    }
    PersistedEndpoint {
        name: item.name.clone(),
        url: item.request.url.raw.clone(),
        method: item.request.method.clone(),
        headers,
        body,
        body_mode,
        raw_type,
    }
}

fn import_variable(v: &PostmanVariable) -> (r: PersistedVariable)
    ensures
        r@ == imported_variable(v.deep_view()),
{
    PersistedVariable {
        id: clone_opt(&v.id),
        key: clone_opt(&v.key),
        value: clone_opt(&v.value),
        variable_type: match v.variable_type {
            Some(pvt) => match pvt {
                PostmanVariableType::String => Some(VariableType::String),
                PostmanVariableType::Boolean => Some(VariableType::Boolean),
                PostmanVariableType::Any => Some(VariableType::Any),
                PostmanVariableType::Number => Some(VariableType::Number),
            },
            None => None,
        },
        name: clone_opt(&v.name),
        system: v.system,
        disabled: v.disabled,
    }
}

/// The project a Postman collection is imported as.
pub fn project_from_postman(postman_json: &PostmanJson) -> (r: PersistedProject)
    ensures
        r@ == imported_project(postman_json@),
{
    let ghost items = postman_json.item.deep_view();
    let mut endpoints: Vec<PersistedEndpoint> = Vec::new();
    let mut i: usize = 0;
    while i < postman_json.item.len()
        invariant
            i <= postman_json.item.len(),
            items == postman_json.item.deep_view(),
            endpoints.deep_view() =~= items.take(i as int).map_values(
                |it: PostmanItemView| imported_endpoint(it),
            ),
        decreases postman_json.item.len() - i,
    {
        let ghost before = endpoints.deep_view();
        let e = import_endpoint(&postman_json.item[i]);
        endpoints.push(e);
        proof {
            assert(endpoints.deep_view() =~= before.push(imported_endpoint(items[i as int])));
            assert(items.take(i as int + 1).map_values(|it: PostmanItemView| imported_endpoint(it))
                =~= items.take(i as int).map_values(|it: PostmanItemView| imported_endpoint(it)).push(
                imported_endpoint(items[i as int]),
            ));
        }
        i += 1;
    }
    proof {
        assert(items.take(i as int) =~= items);
    }
    let mut variable: Vec<PersistedVariable> = Vec::new();
    match &postman_json.variable {
        Some(postman_variables) => {
            let ghost vs = postman_variables.deep_view();
            let mut k: usize = 0;
            while k < postman_variables.len()
                invariant
                    k <= postman_variables.len(),
                    vs == postman_variables.deep_view(),
                    variable.deep_view() =~= vs.take(k as int).map_values(
                        |v: PostmanVariableView| imported_variable(v),
                    ),
                decreases postman_variables.len() - k,
            {
                let ghost before = variable.deep_view();
                variable.push(import_variable(&postman_variables[k]));
                proof {
                    assert(variable.deep_view() =~= before.push(imported_variable(vs[k as int])));
                    assert(vs.take(k as int + 1).map_values(
                        |v: PostmanVariableView| imported_variable(v),
                    ) =~= vs.take(k as int).map_values(
                        |v: PostmanVariableView| imported_variable(v),
                    ).push(imported_variable(vs[k as int])));
                }
                k += 1;
            }
            proof {
                assert(vs.take(k as int) =~= vs);
            }
        },
        None => {
            proof {
                assert(variable.deep_view() =~= Seq::<VariableView>::empty());
            }
        },
    }
    let r = PersistedProject { name: postman_json.info.name.clone(), endpoints, variable };
    proof {
        let j = postman_json@;
        assert(r@.endpoints == imported_project(j).endpoints);
        assert(r@.variable == imported_project(j).variable);
    }
    r
}

/// Importing a collection keeps the kind of each request body: a raw,
/// URL-encoded, form-data or GraphQL body becomes an endpoint whose body mode
/// is `raw`, `urlencoded`, `formdata` or `graphql`, so two items with bodies of
/// different kinds among these are never imported alike; and an imported
/// GraphQL request is sent as `application/json`.
pub proof fn lemma_import_keeps_body_kind(j: PostmanJsonView, k: int, l: int)
    requires
        0 <= k < j.item.len(),
        0 <= l < j.item.len(),
    ensures
        j.item[k].request.body matches Some(b) ==> {
            let e = imported_project(j).endpoints[k];
            &&& b.mode == PostmanBodyMode::Raw ==> e.body_mode == "raw"@
            &&& b.mode == PostmanBodyMode::UrlEncoded ==> e.body_mode == "urlencoded"@
            &&& b.mode == PostmanBodyMode::FormData ==> e.body_mode == "formdata"@
            &&& b.mode == PostmanBodyMode::GraphQL ==> e.body_mode == "graphql"@
                && endpoint_content_type(e) == Some("application/json"@)
        },
        ({
            &&& j.item[k].request.body matches Some(b1)
            &&& j.item[l].request.body matches Some(b2)
            &&& b1.mode != PostmanBodyMode::File
            &&& b2.mode != PostmanBodyMode::File
            &&& b1.mode != b2.mode
        }) ==> imported_project(j).endpoints[k].body_mode != imported_project(
            j,
        ).endpoints[l].body_mode,
{
    reveal_strlit("raw");
    reveal_strlit("urlencoded");
    reveal_strlit("formdata");
    reveal_strlit("graphql");
    reveal_strlit("x-www-form-urlencoded");
    let e = imported_project(j).endpoints[k];
    assert(e == imported_endpoint(j.item[k]));
    assert(imported_project(j).endpoints[l] == imported_endpoint(j.item[l]));
    assert("graphql"@.len() == 7);
    assert("formdata"@.len() == 8);
    assert("x-www-form-urlencoded"@.len() == 21);
    assert("raw"@.len() == 3);
    assert("urlencoded"@.len() == 10);
}

/// Importing a collection gives a project of the collection's name with one
/// endpoint per item, in order; each endpoint has the item's name, URL, method
/// and headers (name and value, in order). A raw body keeps its text, a GraphQL
/// body becomes the JSON of its query and variables, and an item without a body
/// becomes an empty raw body of raw type `Text`; otherwise the raw type is the
/// language of the body options, empty without options.
pub proof fn lemma_import_keeps_items(j: PostmanJsonView, k: int)
    requires
        0 <= k < j.item.len(),
    ensures
        imported_project(j).name == j.info.name,
        imported_project(j).endpoints.len() == j.item.len(),
        ({
            let it = j.item[k];
            let e = imported_project(j).endpoints[k];
            &&& e.name == it.name
            &&& e.url == it.request.url
            &&& e.method == it.request.method
            &&& e.headers.len() == it.request.header.len()
            &&& forall|h: int|
                0 <= h < e.headers.len() ==> (#[trigger] e.headers[h]).name
                    == it.request.header[h].key && e.headers[h].value == it.request.header[h].value
            &&& it.request.body is None ==> e.body == Seq::<char>::empty() && e.body_mode == "raw"@
                && e.raw_type == "Text"@
            &&& it.request.body matches Some(b) ==> {
                &&& e.raw_type == match b.options {
                    Some(language) => language,
                    None => Seq::<char>::empty(),
                }
                &&& b.mode == PostmanBodyMode::Raw ==> e.body == match b.raw {
                    Some(r) => r,
                    None => Seq::<char>::empty(),
                }
                &&& b.mode == PostmanBodyMode::GraphQL ==> e.body == match b.graphql {
                    Some(g) => "{\"query\":"@ + json_string(g.query) + ",\"variables\":"@
                        + json_string(g.variables) + "}"@,
                    None => Seq::<char>::empty(),
                }
            }
        }),
{
    let e = imported_project(j).endpoints[k];
    assert(e == imported_endpoint(j.item[k]));
}

/// The content type an endpoint is exported with: the value of its last header
/// named `content-type` (compared lowercased), `text/plain` without one.
pub open spec fn exported_content_type(hs: Seq<HeaderView>) -> Seq<char>
    decreases hs.len(),
{
    if hs.len() == 0 {
        "text/plain"@
    } else if lowercase(hs.last().name) == "content-type"@ {
        hs.last().value
    } else {
        exported_content_type(hs.drop_last())
    }
}

/// The exporter has no form for the content types `multipart/x-form-data` and
/// `urlencoded`: it stops there.
pub open spec fn exportable(e: EndpointView) -> bool {
    let ct = exported_content_type(e.headers);
    ct != "multipart/x-form-data"@ && ct != "urlencoded"@
}

/// The body an endpoint is exported with: none for an empty content type,
/// otherwise its body as raw text.
pub open spec fn exported_body(e: EndpointView) -> Option<PostmanBodyView> {
    if exported_content_type(e.headers) == Seq::<char>::empty() {
        None
    } else {
        Some(
            PostmanBodyView {
                options: Some("Text"@),
                mode: PostmanBodyMode::Raw,
                urlencoded: None,
                raw: Some(e.body),
                graphql: None,
                formdata: None,
            },
        )
    }
}

/// The collection item an endpoint is exported as; its id is the name-based
/// UUID of the endpoint's name.
pub open spec fn exported_item(e: EndpointView) -> PostmanItemView {
    PostmanItemView {
        id: Some(uuid_v5_url(e.name)),
        name: e.name,
        request: PostmanRequestView {
            description: Some(Seq::empty()),
            url: e.url,
            method: e.method,
            header: e.headers.map_values(|h: HeaderView| PostmanKVView { key: h.name, value: h.value }),
            body: exported_body(e),
        },
    }
}

/// The collection variable a project variable is exported as.
pub open spec fn exported_variable(v: VariableView) -> PostmanVariableView {
    PostmanVariableView {
        id: v.id,
        key: v.key,
        value: v.value,
        variable_type: match v.variable_type {
            Some(VariableType::String) => Some(PostmanVariableType::String),
            Some(VariableType::Boolean) => Some(PostmanVariableType::Boolean),
            Some(VariableType::Any) => Some(PostmanVariableType::Any),
            Some(VariableType::Number) => Some(PostmanVariableType::Number),
            None => None,
        },
        name: v.name,
        system: v.system,
        disabled: v.disabled,
    }
}

/// The collection a project is exported as, at the time written `exported_at`.
pub open spec fn exported_collection(p: ProjectView, exported_at: Seq<char>) -> PostmanJsonView {
    PostmanJsonView {
        info: PostmanInformationView {
            name: p.name,
            description: "Postman collection exported from Tome on: "@ + exported_at,
            schema: POSTMAN_JSON_SCHEMA@,
        },
        item: p.endpoints.map_values(|e: EndpointView| exported_item(e)),
        variable: Some(p.variable.map_values(|v: VariableView| exported_variable(v))),
    }
}

fn export_endpoint(endpoint: &PersistedEndpoint) -> (r: PostmanItem)
    requires
        exportable(endpoint@),
    ensures
        r.deep_view() == exported_item(endpoint@),
{
    let id = create_uuid(endpoint.name.as_str());
    let mut content_type = "text/plain".to_owned();
    let ghost hs = endpoint.headers.deep_view();
    let mut header: Vec<PostmanKV> = Vec::new();
    let mut i: usize = 0;
    while i < endpoint.headers.len()
        invariant
            i <= endpoint.headers.len(),
            hs == endpoint.headers.deep_view(),
            content_type@ == exported_content_type(hs.take(i as int)),
            header.deep_view() =~= hs.take(i as int).map_values(
                |h: HeaderView| PostmanKVView { key: h.name, value: h.value },
            ),
        decreases endpoint.headers.len() - i,
    {
        let h = &endpoint.headers[i];
        proof {
            assert(hs.take(i as int + 1).drop_last() =~= hs.take(i as int));
        }
        let name = to_lowercase(h.name.as_str());
        if str_eq(name.as_str(), "content-type") {
            content_type = h.value.clone();
        }
        let ghost before = header.deep_view();
        header.push(PostmanKV { key: h.name.clone(), value: h.value.clone() });
        proof {
            assert(header.deep_view() =~= before.push(PostmanKVView { key: hs[i as int].name, value: hs[i as int].value }));
            assert(hs.take(i as int + 1).map_values(
                |h: HeaderView| PostmanKVView { key: h.name, value: h.value },
            ) =~= hs.take(i as int).map_values(
                |h: HeaderView| PostmanKVView { key: h.name, value: h.value },
            ).push(PostmanKVView { key: hs[i as int].name, value: hs[i as int].value }));
        }
        i += 1;
    }
    proof {
        assert(hs.take(i as int) =~= hs);
    }
    proof {
        reveal_strlit("");
        assert(""@.len() == 0);
        assert(""@ =~= Seq::<char>::empty());
    }
    let body = if str_eq(content_type.as_str(), "") {
        None
    } else {
        Some(
            PostmanBody {
                mode: PostmanBodyMode::Raw,
                urlencoded: None,
                raw: Some(endpoint.body.clone()),
                graphql: None,
                formdata: None,
                options: Some(PostmanBodyOptions { raw: RawOptions { language: "Text".to_owned() } }),
            },
        )
    };
    let request = PostmanRequest {
        url: PostmanRequestUrl { raw: endpoint.url.clone() },
        description: Some(String::new()),
        method: endpoint.method.clone(),
        header,
        body,
    };
    let r = PostmanItem { id: Some(id), request, name: endpoint.name.clone() };
    proof {
        let x = exported_item(endpoint@).request;
        assert(r.deep_view().request.header == x.header);
        assert(r.deep_view().request.body == x.body);
        assert(r.deep_view().request.description == x.description);
        assert(r.deep_view().request == x);
    }
    r
}

fn export_variable(var: &PersistedVariable) -> (r: PostmanVariable)
    ensures
        r.deep_view() == exported_variable(var@),
{
    PostmanVariable {
        id: clone_opt(&var.id),
        key: clone_opt(&var.key),
        value: clone_opt(&var.value),
        variable_type: match var.variable_type {
            Some(variable_type) => match variable_type {
                VariableType::String => Some(PostmanVariableType::String),
                VariableType::Boolean => Some(PostmanVariableType::Boolean),
                VariableType::Any => Some(PostmanVariableType::Any),
                VariableType::Number => Some(PostmanVariableType::Number),
            },
            None => None,
        },
        name: clone_opt(&var.name),
        system: var.system,
        disabled: var.disabled,
    }
}

/// The content type `endpoint` is exported with.
fn export_content_type(endpoint: &PersistedEndpoint) -> (r: String)
    ensures
        r@ == exported_content_type(endpoint@.headers),
{
    let ghost hs = endpoint.headers.deep_view();
    let mut content_type = "text/plain".to_owned();
    let mut i: usize = 0;
    while i < endpoint.headers.len()
        invariant
            i <= endpoint.headers.len(),
            hs == endpoint.headers.deep_view(),
            content_type@ == exported_content_type(hs.take(i as int)),
        decreases endpoint.headers.len() - i,
    {
        let h = &endpoint.headers[i];
        proof {
            assert(hs.take(i as int + 1).drop_last() =~= hs.take(i as int));
        }
        let name = to_lowercase(h.name.as_str());
        if str_eq(name.as_str(), "content-type") {
            content_type = h.value.clone();
        }
        i += 1;
    }
    proof {
        assert(hs.take(i as int) =~= hs);
    }
    content_type
}

/// Whether every endpoint of `project` can be exported: none has the content
/// type `multipart/x-form-data` or `urlencoded`.
pub fn project_exportable(project: &PersistedProject) -> (r: bool)
    ensures
        r == forall|k: int| 0 <= k < project@.endpoints.len() ==> exportable(#[trigger] project@.endpoints[k]),
{
    let mut i: usize = 0;
    while i < project.endpoints.len()
        invariant
            i <= project.endpoints.len(),
            forall|k: int| 0 <= k < i ==> exportable(#[trigger] project@.endpoints[k]),
        decreases project.endpoints.len() - i,
    {
        let ct = export_content_type(&project.endpoints[i]);
        proof {
            reveal_strlit("multipart/x-form-data");
            reveal_strlit("urlencoded");
            assert(project@.endpoints[i as int] == project.endpoints[i as int]@);
        }
        if str_eq(ct.as_str(), "multipart/x-form-data") || str_eq(ct.as_str(), "urlencoded") {
            return false;
        }
        i += 1;
    }
    true
}

/// The collection `project` is exported as, at the time written `exported_at`.
pub fn postman_from_project_at(project: &PersistedProject, exported_at: &str) -> (r: PostmanJson)
    requires
        forall|k: int| 0 <= k < project@.endpoints.len() ==> exportable(#[trigger] project@.endpoints[k]),
    ensures
        r@ == exported_collection(project@, exported_at@),
{
    let mut description = "Postman collection exported from Tome on: ".to_owned();
    append_str(&mut description, exported_at);
    let info = PostmanInformation {
        name: project.name.clone(),
        description,
        schema: POSTMAN_JSON_SCHEMA.to_owned(),
    };
    let ghost es = project.endpoints.deep_view();
    let mut item: Vec<PostmanItem> = Vec::new();
    let mut i: usize = 0;
    while i < project.endpoints.len()
        invariant
            i <= project.endpoints.len(),
            es == project.endpoints.deep_view(),
            es == project@.endpoints,
            forall|k: int| 0 <= k < es.len() ==> exportable(#[trigger] es[k]),
            item.deep_view() =~= es.take(i as int).map_values(|e: EndpointView| exported_item(e)),
        decreases project.endpoints.len() - i,
    {
        let ghost before = item.deep_view();
        item.push(export_endpoint(&project.endpoints[i]));
        proof {
            assert(item.deep_view() =~= before.push(exported_item(es[i as int])));
            assert(es.take(i as int + 1).map_values(|e: EndpointView| exported_item(e))
                =~= es.take(i as int).map_values(|e: EndpointView| exported_item(e)).push(
                exported_item(es[i as int]),
            ));
        }
        i += 1;
    }
    proof {
        assert(es.take(i as int) =~= es);
    }
    let ghost vs = project.variable.deep_view();
    let mut variable: Vec<PostmanVariable> = Vec::new();
    let mut k: usize = 0;
    while k < project.variable.len()
        invariant
            k <= project.variable.len(),
            vs == project.variable.deep_view(),
            variable.deep_view() =~= vs.take(k as int).map_values(
                |v: VariableView| exported_variable(v),
            ),
        decreases project.variable.len() - k,
    {
        let ghost before = variable.deep_view();
        variable.push(export_variable(&project.variable[k]));
        proof {
            assert(variable.deep_view() =~= before.push(exported_variable(vs[k as int])));
            assert(vs.take(k as int + 1).map_values(|v: VariableView| exported_variable(v))
                =~= vs.take(k as int).map_values(|v: VariableView| exported_variable(v)).push(
                exported_variable(vs[k as int]),
            ));
        }
        k += 1;
    }
    proof {
        assert(vs.take(k as int) =~= vs);
    }
    let r = PostmanJson { info, item, variable: Some(variable) };
    proof {
        let x = exported_collection(project@, exported_at@);
        assert(r@.item == x.item);
        assert(r@.variable == x.variable);
        assert(r@.info == x.info);
    }
    r
}

/// The collection `project` is exported as now: as `postman_from_project_at`
/// with the current time written out.
pub fn postman_from_project(project: &PersistedProject) -> (r: PostmanJson)
    requires
        forall|k: int| 0 <= k < project@.endpoints.len() ==> exportable(#[trigger] project@.endpoints[k]),
    ensures
        exists|t: Seq<char>| r@ == exported_collection(project@, t),
{
    let now = now_text();
    postman_from_project_at(project, now.as_str())
}

/// An endpoint as it comes back from an export followed by an import: the
/// same name, URL, method and headers; its body when it was exported with one;
/// the raw body mode and the `Text` raw type.
pub open spec fn reimported_endpoint(e: EndpointView) -> EndpointView {
    EndpointView {
        body: if exported_content_type(e.headers) == Seq::<char>::empty() {
            Seq::empty()
        } else {
            e.body
        },
        body_mode: "raw"@,
        raw_type: "Text"@,
        ..e
    }
}

/// Exporting a project to a collection and importing that collection gives
/// back the project's name, its endpoints in order (each as
/// `reimported_endpoint` says), and its variables unchanged.
pub proof fn lemma_export_then_import(p: ProjectView, exported_at: Seq<char>)
    ensures
        imported_project(exported_collection(p, exported_at)) == (ProjectView {
            name: p.name,
            endpoints: p.endpoints.map_values(|e: EndpointView| reimported_endpoint(e)),
            variable: p.variable,
        }),
{
    let q = imported_project(exported_collection(p, exported_at));
    let es = p.endpoints.map_values(|e: EndpointView| reimported_endpoint(e));
    assert forall|k: int| 0 <= k < es.len() implies #[trigger] q.endpoints[k] == es[k] by {
        let e = p.endpoints[k];
        let it = exported_item(e);
        assert(it.request.header.map_values(
            |kv: PostmanKVView| HeaderView { name: kv.key, value: kv.value },
        ) =~= e.headers);
    }
    assert(q.endpoints =~= es);
    let vs = p.variable;
    assert forall|k: int| 0 <= k < vs.len() implies #[trigger] q.variable[k] == vs[k] by {
        let v = p.variable[k];
        match v.variable_type {
            Some(t) => {
                match t {
                    VariableType::String => {},
                    VariableType::Boolean => {},
                    VariableType::Any => {},
                    VariableType::Number => {},
                }
            },
            None => {},
        }
    }
    assert(q.variable =~= vs);
}

/// The collection `project` is exported as now, or `None` when an endpoint has
/// a content type the exporter has no form for (`project_exportable` fails).
pub fn try_postman_from_project(project: &PersistedProject) -> (r: Option<PostmanJson>)
    ensures
        r is None <==> !(forall|k: int|
            0 <= k < project@.endpoints.len() ==> exportable(#[trigger] project@.endpoints[k])),
        r matches Some(j) ==> exists|t: Seq<char>| j@ == exported_collection(project@, t),
{
    if project_exportable(project) {
        Some(postman_from_project(project))
    } else {
        None
    }
}

} // verus!
