//! The saved form of projects: endpoints with their headers and bodies, and
//! project variables.
use vstd::prelude::*;

use crate::text::{append_str, chars_of, str_eq, trim_chars, trimmed};

verus! {

/// A request header.
#[derive(Debug)]
pub struct Header {
    pub name: String,
    pub value: String,
}

pub struct HeaderView {
    pub name: Seq<char>,
    pub value: Seq<char>,
}

impl DeepView for Header {
    type V = HeaderView;

    open spec fn deep_view(&self) -> HeaderView {
        HeaderView { name: self.name@, value: self.value@ }
    }
}

impl View for Header {
    type V = HeaderView;

    open spec fn view(&self) -> HeaderView {
        self.deep_view()
    }
}

/// A saved endpoint: a request with its name.
#[derive(Debug)]
pub struct PersistedEndpoint {
    pub name: String,
    pub url: String,
    pub method: String,
    pub headers: Vec<Header>,
    pub body: String,
    pub body_mode: String,
    pub raw_type: String,
}

pub struct EndpointView {
    pub name: Seq<char>,
    pub url: Seq<char>,
    pub method: Seq<char>,
    pub headers: Seq<HeaderView>,
    pub body: Seq<char>,
    pub body_mode: Seq<char>,
    pub raw_type: Seq<char>,
}

impl DeepView for PersistedEndpoint {
    type V = EndpointView;

    open spec fn deep_view(&self) -> EndpointView {
        EndpointView {
            name: self.name@,
            url: self.url@,
            method: self.method@,
            headers: self.headers.deep_view(),
            body: self.body@,
            body_mode: self.body_mode@,
            raw_type: self.raw_type@,
        }
    }
}

impl View for PersistedEndpoint {
    type V = EndpointView;

    open spec fn view(&self) -> EndpointView {
        self.deep_view()
    }
}

/// The kind of value a project variable holds.
#[derive(Debug, Clone, Copy, PartialEq, Eq, Structural)]
pub enum VariableType {
    String,
    Boolean,
    Any,
    Number,
}

/// A project variable.
#[derive(Debug)]
pub struct PersistedVariable {
    pub id: Option<String>,
    pub key: Option<String>,
    pub value: Option<String>,
    pub variable_type: Option<VariableType>,
    pub name: Option<String>,
    pub system: Option<bool>,
    pub disabled: Option<bool>,
}

pub struct VariableView {
    pub id: Option<Seq<char>>,
    pub key: Option<Seq<char>>,
    pub value: Option<Seq<char>>,
    pub variable_type: Option<VariableType>,
    pub name: Option<Seq<char>>,
    pub system: Option<bool>,
    pub disabled: Option<bool>,
}

impl DeepView for PersistedVariable {
    type V = VariableView;

    open spec fn deep_view(&self) -> VariableView {
        VariableView {
            id: self.id.deep_view(),
            key: self.key.deep_view(),
            value: self.value.deep_view(),
            variable_type: self.variable_type,
            name: self.name.deep_view(),
            system: self.system,
            disabled: self.disabled,
        }
    }
}

impl View for PersistedVariable {
    type V = VariableView;

    open spec fn view(&self) -> VariableView {
        self.deep_view()
    }
}

/// A saved project: its name, endpoints and variables.
#[derive(Debug)]
pub struct PersistedProject {
    pub name: String,
    pub endpoints: Vec<PersistedEndpoint>,
    pub variable: Vec<PersistedVariable>,
}

pub struct ProjectView {
    pub name: Seq<char>,
    pub endpoints: Seq<EndpointView>,
    pub variable: Seq<VariableView>,
}

impl DeepView for PersistedProject {
    type V = ProjectView;

    open spec fn deep_view(&self) -> ProjectView {
        ProjectView {
            name: self.name@,
            endpoints: self.endpoints.deep_view(),
            variable: self.variable.deep_view(),
        }
    }
}

impl View for PersistedProject {
    type V = ProjectView;

    open spec fn view(&self) -> ProjectView {
        self.deep_view()
    }
}

/// Index of the first endpoint of `es` named `name`, if any.
pub open spec fn endpoint_index(es: Seq<EndpointView>, name: Seq<char>) -> Option<int> {
    if exists|i: int| 0 <= i < es.len() && es[i].name == name {
        Some(
            choose|i: int|
                0 <= i < es.len() && es[i].name == name && forall|j: int|
                    0 <= j < i ==> es[j].name != name,
        )
    } else {
        None
    }
}

/// The endpoints after `e` is saved among them: an endpoint of the same name is
/// taken out (the first one) and `e` goes at the end.
pub open spec fn saved_endpoints(es: Seq<EndpointView>, e: EndpointView) -> Seq<EndpointView> {
    match endpoint_index(es, e.name) {
        Some(i) => es.remove(i).push(e),
        None => es.push(e),
    }
}

/// No two endpoints of `es` share a name.
pub open spec fn names_unique(es: Seq<EndpointView>) -> bool {
    forall|i: int, j: int| 0 <= i < es.len() && 0 <= j < es.len() && i != j ==> es[i].name != es[j].name
}

/// Position of the first endpoint named `name`, if any.
pub fn find_endpoint(endpoints: &Vec<PersistedEndpoint>, name: &str) -> (r: Option<usize>)
    ensures
        r matches Some(i) ==> endpoint_index(endpoints.deep_view(), name@) == Some(i as int)
            && i < endpoints.len(),
        r is None ==> endpoint_index(endpoints.deep_view(), name@) is None,
{
    let ghost es = endpoints.deep_view();
    let mut i: usize = 0;
    while i < endpoints.len()
        invariant
            i <= endpoints.len(),
            es == endpoints.deep_view(),
            forall|j: int| 0 <= j < i ==> es[j].name != name@,
        decreases endpoints.len() - i,
    {
        if str_eq(endpoints[i].name.as_str(), name) {
            proof {
                let k = choose|k: int|
                    0 <= k < es.len() && es[k].name == name@ && forall|j: int|
                        0 <= j < k ==> es[j].name != name@;
                assert(es[i as int].name == name@);
                assert(k == i) by {
                    if k > i {
                        assert(es[i as int].name != name@);
                    }
                }
            }
            return Some(i);
        }
        i += 1;
    }
    None
}

/// Saves `endpoint` in `project`: an endpoint of the same name is replaced, and
/// the saved endpoint goes last.
pub fn upsert_endpoint(project: &mut PersistedProject, endpoint: PersistedEndpoint)
    ensures
        final(project)@.endpoints == saved_endpoints(old(project)@.endpoints, endpoint@),
        final(project)@.name == old(project)@.name,
        final(project)@.variable == old(project)@.variable,
{
    let ghost e = endpoint@;
    let ghost es = project.endpoints.deep_view();
    match find_endpoint(&project.endpoints, endpoint.name.as_str()) {
        Some(index) => {
            project.endpoints.remove(index);
            proof {
                assert(project.endpoints.deep_view() =~= es.remove(index as int));
            }
        },
        None => {},
    }
    let ghost before = project.endpoints.deep_view();
    project.endpoints.push(endpoint);
    proof {
        assert(project.endpoints.deep_view() =~= before.push(e));
    }
}

/// `endpoint_index` finds the first endpoint named `name` whenever there is one.
pub proof fn lemma_endpoint_index_found(es: Seq<EndpointView>, name: Seq<char>)
    ensures
        endpoint_index(es, name) matches Some(k) ==> 0 <= k < es.len() && es[k].name == name
            && forall|j: int| 0 <= j < k ==> es[j].name != name,
        endpoint_index(es, name) is None <==> !(exists|i: int| 0 <= i < es.len() && es[i].name
            == name),
{
    if exists|i: int| 0 <= i < es.len() && es[i].name == name {
        let i = choose|i: int| 0 <= i < es.len() && es[i].name == name;
        lemma_first_named_exists(es, name, i);
    }
}

proof fn lemma_first_named_exists(es: Seq<EndpointView>, name: Seq<char>, i: int)
    requires
        0 <= i < es.len(),
        es[i].name == name,
    ensures
        exists|m: int|
            0 <= m < es.len() && es[m].name == name && forall|j: int| 0 <= j < m ==> es[j].name != name,
    decreases i,
{
    if exists|j: int| 0 <= j < i && es[j].name == name {
        let j = choose|j: int| 0 <= j < i && es[j].name == name;
        lemma_first_named_exists(es, name, j);
    } else {
        assert(forall|j: int| 0 <= j < i ==> es[j].name != name);
    }
}

/// Saving an endpoint keeps every endpoint of another name, in order, and adds
/// one endpoint only when none bore the saved endpoint's name.
pub proof fn lemma_save_keeps_other_endpoints(es: Seq<EndpointView>, e: EndpointView)
    ensures
        saved_endpoints(es, e).len() == if exists|i: int| 0 <= i < es.len() && es[i].name == e.name {
            es.len() as int
        } else {
            es.len() + 1 as int
        },
        forall|i: int, j: int|
            0 <= i < j < es.len() && es[i].name != e.name && es[j].name != e.name ==> exists|
                a: int,
                b: int,
            |
                0 <= a < b < saved_endpoints(es, e).len() - 1 && saved_endpoints(es, e)[a] == es[i]
                    && saved_endpoints(es, e)[b] == es[j],
        forall|i: int|
            0 <= i < es.len() && es[i].name != e.name ==> saved_endpoints(es, e).contains(
                #[trigger] es[i],
            ),
{
    let s = saved_endpoints(es, e);
    match endpoint_index(es, e.name) {
        Some(k) => {
            lemma_endpoint_index_found(es, e.name);
            assert(0 <= k < es.len() && es[k].name == e.name);
            assert forall|i: int| 0 <= i < es.len() && es[i].name != e.name implies s.contains(
                #[trigger] es[i],
            ) by {
                let a = if i < k { i } else { i - 1 };
                assert(s[a] == es[i]);
            }
            assert forall|i: int, j: int|
                0 <= i < j < es.len() && es[i].name != e.name && es[j].name != e.name implies exists|
                    a: int,
                    b: int,
                |
                    0 <= a < b < s.len() - 1 && s[a] == es[i] && s[b] == es[j] by {
                let a = if i < k { i } else { i - 1 };
                let b = if j < k { j } else { j - 1 };
                assert(s[a] == es[i] && s[b] == es[j]);
            }
        },
        None => {
            assert forall|i: int| 0 <= i < es.len() && es[i].name != e.name implies s.contains(
                #[trigger] es[i],
            ) by {
                assert(s[i] == es[i]);
            }
            assert forall|i: int, j: int|
                0 <= i < j < es.len() && es[i].name != e.name && es[j].name != e.name implies exists|
                    a: int,
                    b: int,
                |
                    0 <= a < b < s.len() - 1 && s[a] == es[i] && s[b] == es[j] by {
                assert(s[i] == es[i] && s[j] == es[j]);
            }
        },
    }
}

/// Saving an endpoint keeps endpoint names unique, and the endpoint saved is
/// then the one that bears its name.
pub proof fn lemma_save_keeps_names_unique(es: Seq<EndpointView>, e: EndpointView)
    requires
        names_unique(es),
    ensures
        names_unique(saved_endpoints(es, e)),
        saved_endpoints(es, e).last() == e,
        forall|i: int|
            0 <= i < saved_endpoints(es, e).len() && #[trigger] saved_endpoints(es, e)[i].name == e.name
                ==> i == saved_endpoints(es, e).len() - 1,
{
    let s = saved_endpoints(es, e);
    match endpoint_index(es, e.name) {
        Some(k) => {
            let r = es.remove(k);
            assert forall|i: int| 0 <= i < r.len() implies #[trigger] r[i].name != e.name by {
                if i < k {
                    assert(r[i] == es[i]);
                } else {
                    assert(r[i] == es[i + 1]);
                }
            }
            assert forall|i: int, j: int|
                0 <= i < s.len() && 0 <= j < s.len() && i != j implies s[i].name != s[j].name by {
                if i < s.len() - 1 && j < s.len() - 1 {
                    let ii = if i < k { i } else { i + 1 };
                    let jj = if j < k { j } else { j + 1 };
                    assert(s[i] == es[ii]);
                    assert(s[j] == es[jj]);
                } else if i < s.len() - 1 {
                    assert(s[i] == r[i]);
                } else if j < s.len() - 1 {
                    assert(s[j] == r[j]);
                }
            }
        },
        None => {
            assert forall|i: int| 0 <= i < es.len() implies #[trigger] es[i].name != e.name by {}
        },
    }
}

/// Index of the first header of `hs` named `name`, if any.
pub open spec fn header_index(hs: Seq<HeaderView>, name: Seq<char>) -> Option<int> {
    if exists|i: int| 0 <= i < hs.len() && hs[i].name == name {
        Some(
            choose|i: int|
                0 <= i < hs.len() && hs[i].name == name && forall|j: int|
                    0 <= j < i ==> hs[j].name != name,
        )
    } else {
        None
    }
}

/// `header_index` finds the first header named `name` whenever there is one.
pub proof fn lemma_header_index_found(hs: Seq<HeaderView>, name: Seq<char>)
    ensures
        header_index(hs, name) matches Some(k) ==> 0 <= k < hs.len() && hs[k].name == name
            && forall|j: int| 0 <= j < k ==> hs[j].name != name,
        header_index(hs, name) is None <==> !(exists|i: int| 0 <= i < hs.len() && hs[i].name
            == name),
{
    if exists|i: int| 0 <= i < hs.len() && hs[i].name == name {
        let i = choose|i: int| 0 <= i < hs.len() && hs[i].name == name;
        lemma_first_header_named_exists(hs, name, i);
    }
}

proof fn lemma_first_header_named_exists(hs: Seq<HeaderView>, name: Seq<char>, i: int)
    requires
        0 <= i < hs.len(),
        hs[i].name == name,
    ensures
        exists|m: int|
            0 <= m < hs.len() && hs[m].name == name && forall|j: int| 0 <= j < m ==> hs[j].name != name,
    decreases i,
{
    if exists|j: int| 0 <= j < i && hs[j].name == name {
        let j = choose|j: int| 0 <= j < i && hs[j].name == name;
        lemma_first_header_named_exists(hs, name, j);
    } else {
        assert(forall|j: int| 0 <= j < i ==> hs[j].name != name);
    }
}

/// Position of the first header named `name`, if any.
pub fn find_header(headers: &Vec<Header>, name: &str) -> (r: Option<usize>)
    ensures
        r matches Some(i) ==> header_index(headers.deep_view(), name@) == Some(i as int)
            && i < headers.len(),
        r is None ==> header_index(headers.deep_view(), name@) is None,
{
    let ghost hs = headers.deep_view();
    let mut i: usize = 0;
    while i < headers.len()
        invariant
            i <= headers.len(),
            hs == headers.deep_view(),
            forall|j: int| 0 <= j < i ==> hs[j].name != name@,
        decreases headers.len() - i,
    {
        if str_eq(headers[i].name.as_str(), name) {
            proof {
                let k = choose|k: int|
                    0 <= k < hs.len() && hs[k].name == name@ && forall|j: int|
                        0 <= j < k ==> hs[j].name != name@;
                assert(hs[i as int].name == name@);
                assert(k == i) by {
                    if k > i {
                        assert(hs[i as int].name != name@);
                    }
                }
            }
            return Some(i);
        }
        i += 1;
    }
    None
}

/// Removes the first header of `endpoint` named `name`, which must exist.
pub fn remove_header_named(endpoint: &mut PersistedEndpoint, name: &str)
    requires
        header_index(old(endpoint)@.headers, name@) is Some,
    ensures
        final(endpoint)@ == (EndpointView {
            headers: old(endpoint)@.headers.remove(header_index(old(endpoint)@.headers, name@)->0),
            ..old(endpoint)@
        }),
{
    let ghost hs = endpoint.headers.deep_view();
    if let Some(i) = find_header(&endpoint.headers, name) {
        endpoint.headers.remove(i);
        proof {
            assert(endpoint.headers.deep_view() =~= hs.remove(i as int));
        }
    }
}

/// A copy of `hs`.
fn copy_headers(hs: &Vec<Header>) -> (r: Vec<Header>)
    ensures
        r.deep_view() == hs.deep_view(),
{
    let ghost v = hs.deep_view();
    let mut headers: Vec<Header> = Vec::new();
    let mut i: usize = 0;
    while i < hs.len()
        invariant
            i <= hs.len(),
            v == hs.deep_view(),
            headers.deep_view() =~= v.take(i as int),
        decreases hs.len() - i,
    {
        let h = &hs[i];
        let ghost before = headers.deep_view();
        headers.push(Header { name: h.name.clone(), value: h.value.clone() });
        proof {
            assert(headers.deep_view() =~= before.push(v[i as int]));
            assert(v.take(i as int + 1) =~= v.take(i as int).push(v[i as int]));
        }
        i += 1;
    }
    proof {
        assert(v.take(i as int) =~= v);
    }
    headers
}

/// Replaces the headers of the first endpoint of `project` named like
/// `endpoint` (which must exist) with the headers of `endpoint`.
pub fn set_endpoint_headers(project: &mut PersistedProject, endpoint: &PersistedEndpoint)
    requires
        endpoint_index(old(project)@.endpoints, endpoint@.name) is Some,
    ensures
        ({
            let k = endpoint_index(old(project)@.endpoints, endpoint@.name)->0;
            final(project)@ == (ProjectView {
                endpoints: old(project)@.endpoints.update(
                    k,
                    EndpointView { headers: endpoint@.headers, ..old(project)@.endpoints[k] },
                ),
                ..old(project)@
            })
        }),
{
    let ghost es = project.endpoints.deep_view();
    let index = find_endpoint(&project.endpoints, endpoint.name.as_str());
    match index {
        Some(k) => {
            let headers = copy_headers(&endpoint.headers);
            let mut e = project.endpoints.remove(k);
            proof {
                assert(e@ == es[k as int]);
            }
            e.headers = headers;
            let ghost ev = e@;
            let ghost mid = project.endpoints.deep_view();
            project.endpoints.insert(k, e);
            proof {
                assert(mid =~= es.remove(k as int));
                assert(project.endpoints.deep_view() =~= mid.insert(k as int, ev));
                assert(project.endpoints.deep_view() =~= es.update(k as int, ev));
            }
        },
        None => {},
    }
}

/// The endpoints after those named `old_name` are renamed `new_name`.
pub open spec fn renamed_endpoints(es: Seq<EndpointView>, old_name: Seq<char>, new_name: Seq<char>) -> Seq<
    EndpointView,
> {
    es.map_values(
        |e: EndpointView|
            if e.name == old_name {
                EndpointView { name: new_name, ..e }
            } else {
                e
            },
    )
}

/// Renames every endpoint of `project` named `old_name` to `new_name`.
pub fn rename_endpoints(project: &mut PersistedProject, old_name: &str, new_name: &str)
    ensures
        final(project)@ == (ProjectView {
            endpoints: renamed_endpoints(old(project)@.endpoints, old_name@, new_name@),
            ..old(project)@
        }),
{
    let ghost es = project.endpoints.deep_view();
    let mut i: usize = 0;
    while i < project.endpoints.len()
        invariant
            i <= project.endpoints.len(),
            project.endpoints.len() == es.len(),
            project@.name == old(project)@.name,
            project@.variable == old(project)@.variable,
            es == old(project)@.endpoints,
            forall|k: int| 0 <= k < i ==> #[trigger] project.endpoints.deep_view()[k]
                == renamed_endpoints(es, old_name@, new_name@)[k],
            forall|k: int| i <= k < es.len() ==> #[trigger] project.endpoints.deep_view()[k] == es[k],
        decreases project.endpoints.len() - i,
    {
        let ghost cur = project.endpoints.deep_view();
        if str_eq(project.endpoints[i].name.as_str(), old_name) {
            let mut e = project.endpoints.remove(i);
            proof {
                assert(e@ == cur[i as int]);
            }
            e.name = new_name.to_owned();
            let ghost ev = e@;
            let ghost mid = project.endpoints.deep_view();
            project.endpoints.insert(i, e);
            proof {
                assert(mid =~= cur.remove(i as int));
                assert(project.endpoints.deep_view() =~= cur.update(i as int, ev));
                assert(ev == renamed_endpoints(es, old_name@, new_name@)[i as int]);
            }
        } else {
            proof {
                assert(cur[i as int] == renamed_endpoints(es, old_name@, new_name@)[i as int]);
            }
        }
        i += 1;
    }
    proof {
        assert(project.endpoints.deep_view() =~= renamed_endpoints(es, old_name@, new_name@));
    }
}

/// Renaming keeps the number of endpoints, and when the two names differ no
/// endpoint keeps the old name.
pub proof fn lemma_rename_leaves_no_old_name(
    es: Seq<EndpointView>,
    old_name: Seq<char>,
    new_name: Seq<char>,
)
    requires
        old_name != new_name,
    ensures
        renamed_endpoints(es, old_name, new_name).len() == es.len(),
        forall|k: int|
            0 <= k < es.len() ==> #[trigger] renamed_endpoints(es, old_name, new_name)[k].name
                != old_name,
{
}

/// Renaming to a name no endpoint bears keeps endpoint names unique.
pub proof fn lemma_rename_keeps_names_unique(
    es: Seq<EndpointView>,
    old_name: Seq<char>,
    new_name: Seq<char>,
)
    requires
        names_unique(es),
        forall|k: int| 0 <= k < es.len() ==> #[trigger] es[k].name != new_name,
    ensures
        names_unique(renamed_endpoints(es, old_name, new_name)),
{
    let r = renamed_endpoints(es, old_name, new_name);
    assert forall|i: int, j: int|
        0 <= i < r.len() && 0 <= j < r.len() && i != j implies r[i].name != r[j].name by {
        assert(es[i].name != es[j].name);
        assert(es[i].name != new_name);
        assert(es[j].name != new_name);
    }
}

/// The message shown when `name` is already among `current_names`.
pub open spec fn name_in_use_message(name: Seq<char>) -> Seq<char> {
    "The name '"@ + name + "' is already in use"@
}

/// An error message when `name` is already among `current_names`, and `None`
/// when it is free.
pub fn unique_name_error(current_names: &Vec<String>, name: &str) -> (r: Option<String>)
    ensures
        r.deep_view() == if exists|i: int| 0 <= i < current_names.len() && current_names[i]@ == name@ {
            Some(name_in_use_message(name@))
        } else {
            None
        },
{
    let mut i: usize = 0;
    while i < current_names.len()
        invariant
            i <= current_names.len(),
            forall|j: int| 0 <= j < i ==> current_names[j]@ != name@,
        decreases current_names.len() - i,
    {
        if str_eq(current_names[i].as_str(), name) {
            let mut msg = "The name '".to_owned();
            append_str(&mut msg, name);
            append_str(&mut msg, "' is already in use");
            return Some(msg);
        }
        i += 1;
    }
    None
}

/// The endpoint after its URL is set to `value`; an endpoint whose name still
/// equals its URL follows the URL.
pub open spec fn url_changed(e: EndpointView, value: Seq<char>) -> EndpointView {
    EndpointView {
        url: value,
        name: if e.url == e.name {
            value
        } else {
            e.name
        },
        ..e
    }
}

/// Sets the URL of `endpoint`; its name follows when it was still the URL.
pub fn change_url(endpoint: &mut PersistedEndpoint, value: &str)
    ensures
        final(endpoint)@ == url_changed(old(endpoint)@, value@),
{
    let name_still_default = endpoint.url == endpoint.name;
    endpoint.url = value.to_owned();
    if name_still_default {
        endpoint.name = value.to_owned();
    }
}

/// Adds a header to `endpoint` unless its name or value is blank (only
/// whitespace); returns whether it was added.
pub fn add_header(endpoint: &mut PersistedEndpoint, name: String, value: String) -> (added: bool)
    ensures
        added == (trimmed(name@).len() > 0 && trimmed(value@).len() > 0),
        final(endpoint)@ == if added {
            EndpointView {
                headers: old(endpoint)@.headers.push(HeaderView { name: name@, value: value@ }),
                ..old(endpoint)@
            }
        } else {
            old(endpoint)@
        },
{
    let n = trim_chars(&chars_of(name.as_str()));
    let v = trim_chars(&chars_of(value.as_str()));
    if n.len() == 0 || v.len() == 0 {
        return false;
    }
    let ghost before = endpoint.headers.deep_view();
    endpoint.headers.push(Header { name, value });
    proof {
        assert(endpoint.headers.deep_view() =~= before.push(HeaderView { name: name@, value: value@ }));
    }
    true
}

/// Index of the first variable of `vs` equal to `v`, if any.
pub open spec fn variable_index(vs: Seq<VariableView>, v: VariableView) -> Option<int> {
    if exists|i: int| 0 <= i < vs.len() && vs[i] == v {
        Some(choose|i: int| 0 <= i < vs.len() && vs[i] == v && forall|j: int| 0 <= j < i ==> vs[j] != v)
    } else {
        None
    }
}

fn opt_str_eq(a: &Option<String>, b: &Option<String>) -> (r: bool)
    ensures
        r == (a.deep_view() == b.deep_view()),
{
    match (a, b) {
        (Some(x), Some(y)) => str_eq(x.as_str(), y.as_str()),
        (None, None) => true,
        _ => false,
    }
}

fn opt_bool_eq(a: Option<bool>, b: Option<bool>) -> (r: bool)
    ensures
        r == (a == b),
{
    match (a, b) {
        (Some(x), Some(y)) => x == y,
        (None, None) => true,
        _ => false,
    }
}

fn opt_type_eq(a: Option<VariableType>, b: Option<VariableType>) -> (r: bool)
    ensures
        r == (a == b),
{
    match (a, b) {
        (Some(x), Some(y)) => x == y,
        (None, None) => true,
        _ => false,
    }
}

/// Whether two variables hold the same values in all their fields.
pub fn variables_equal(a: &PersistedVariable, b: &PersistedVariable) -> (r: bool)
    ensures
        r == (a@ == b@),
{
    opt_str_eq(&a.id, &b.id) && opt_str_eq(&a.key, &b.key) && opt_str_eq(&a.value, &b.value)
        && opt_type_eq(a.variable_type, b.variable_type) && opt_str_eq(&a.name, &b.name)
        && opt_bool_eq(a.system, b.system) && opt_bool_eq(a.disabled, b.disabled)
}

/// Removes the first variable of `project` equal to `variable`; returns whether
/// there was one.
pub fn remove_variable(project: &mut PersistedProject, variable: &PersistedVariable) -> (removed: bool)
    ensures
        removed == variable_index(old(project)@.variable, variable@) is Some,
        final(project)@ == match variable_index(old(project)@.variable, variable@) {
            Some(i) => ProjectView { variable: old(project)@.variable.remove(i), ..old(project)@ },
            None => old(project)@,
        },
{
    let ghost vs = project.variable.deep_view();
    let mut i: usize = 0;
    while i < project.variable.len()
        invariant
            i <= project.variable.len(),
            vs == project.variable.deep_view(),
            project@ == old(project)@,
            forall|j: int| 0 <= j < i ==> vs[j] != variable@,
        decreases project.variable.len() - i,
    {
        if variables_equal(&project.variable[i], variable) {
            proof {
                assert(vs[i as int] == variable@);
                let k = choose|k: int|
                    0 <= k < vs.len() && vs[k] == variable@ && forall|j: int| 0 <= j < k ==> vs[j] != variable@;
                assert(k == i) by {
                    if k > i {
                        assert(vs[i as int] != variable@);
                    }
                }
            }
            project.variable.remove(i);
            proof {
                assert(project.variable.deep_view() =~= vs.remove(i as int));
            }
            return true;
        }
        i += 1;
    }
    false
}

/// The endpoint a new one starts as: every field empty, no headers.
pub open spec fn blank_endpoint_view() -> EndpointView {
    EndpointView {
        name: Seq::empty(),
        url: Seq::empty(),
        method: Seq::empty(),
        headers: Seq::empty(),
        body: Seq::empty(),
        body_mode: Seq::empty(),
        raw_type: Seq::empty(),
    }
}

/// A blank endpoint.
pub fn blank_endpoint() -> (e: PersistedEndpoint)
    ensures
        e@ == blank_endpoint_view(),
{
    let e = PersistedEndpoint {
        name: String::new(),
        url: String::new(),
        method: String::new(),
        headers: Vec::new(),
        body: String::new(),
        body_mode: String::new(),
        raw_type: String::new(),
    };
    proof {
        assert(e.headers.deep_view() =~= Seq::<HeaderView>::empty());
    }
    e
}

/// The project a new one starts as: no name, no endpoints, no variables.
pub open spec fn blank_project_view() -> ProjectView {
    ProjectView { name: Seq::empty(), endpoints: Seq::empty(), variable: Seq::empty() }
}

/// A blank project.
pub fn blank_project() -> (p: PersistedProject)
    ensures
        p@ == blank_project_view(),
{
    let p = PersistedProject { name: String::new(), endpoints: Vec::new(), variable: Vec::new() };
    proof {
        assert(p.endpoints.deep_view() =~= Seq::<EndpointView>::empty());
        assert(p.variable.deep_view() =~= Seq::<VariableView>::empty());
    }
    p
}

/// A copy of `e`.
pub fn copy_endpoint(e: &PersistedEndpoint) -> (r: PersistedEndpoint)
    ensures
        r@ == e@,
{
    PersistedEndpoint {
        name: e.name.clone(),
        url: e.url.clone(),
        method: e.method.clone(),
        headers: copy_headers(&e.headers),
        body: e.body.clone(),
        body_mode: e.body_mode.clone(),
        raw_type: e.raw_type.clone(),
    }
}

fn copy_opt(o: &Option<String>) -> (r: Option<String>)
    ensures
        r.deep_view() == o.deep_view(),
{
    match o {
        Some(s) => Some(s.clone()),
        None => None,
    }
}

/// A copy of `v`.
pub fn copy_variable(v: &PersistedVariable) -> (r: PersistedVariable)
    ensures
        r@ == v@,
{
    PersistedVariable {
        id: copy_opt(&v.id),
        key: copy_opt(&v.key),
        value: copy_opt(&v.value),
        variable_type: v.variable_type,
        name: copy_opt(&v.name),
        system: v.system,
        disabled: v.disabled,
    }
}

/// A copy of `p`.
pub fn copy_project(p: &PersistedProject) -> (r: PersistedProject)
    ensures
        r@ == p@,
{
    let ghost es = p.endpoints.deep_view();
    let mut endpoints: Vec<PersistedEndpoint> = Vec::new();
    let mut i: usize = 0;
    while i < p.endpoints.len()
        invariant
            i <= p.endpoints.len(),
            es == p.endpoints.deep_view(),
            endpoints.deep_view() =~= es.take(i as int),
        decreases p.endpoints.len() - i,
    {
        let ghost before = endpoints.deep_view();
        endpoints.push(copy_endpoint(&p.endpoints[i]));
        proof {
            assert(endpoints.deep_view() =~= before.push(es[i as int]));
            assert(es.take(i as int + 1) =~= es.take(i as int).push(es[i as int]));
        }
        i += 1;
    }
    proof {
        assert(es.take(i as int) =~= es);
    }
    let ghost vs = p.variable.deep_view();
    let mut variable: Vec<PersistedVariable> = Vec::new();
    let mut k: usize = 0;
    while k < p.variable.len()
        invariant
            k <= p.variable.len(),
            vs == p.variable.deep_view(),
            variable.deep_view() =~= vs.take(k as int),
        decreases p.variable.len() - k,
    {
        let ghost before = variable.deep_view();
        variable.push(copy_variable(&p.variable[k]));
        proof {
            assert(variable.deep_view() =~= before.push(vs[k as int]));
            assert(vs.take(k as int + 1) =~= vs.take(k as int).push(vs[k as int]));
        }
        k += 1;
    }
    proof {
        assert(vs.take(k as int) =~= vs);
    }
    PersistedProject { name: p.name.clone(), endpoints, variable }
}

/// Taking out the endpoint named `name` from endpoints whose names are unique
/// leaves none of that name and every other endpoint, in order.
pub proof fn lemma_endpoint_taken_out(es: Seq<EndpointView>, name: Seq<char>)
    requires
        names_unique(es),
        exists|i: int| 0 <= i < es.len() && es[i].name == name,
    ensures
        ({
            let r = es.remove(endpoint_index(es, name)->0);
            &&& r.len() + 1 == es.len()
            &&& forall|i: int| 0 <= i < r.len() ==> (#[trigger] r[i]).name != name
            &&& r == es.filter(|e: EndpointView| e.name != name)
        }),
{
    lemma_endpoint_index_found(es, name);
    let k = endpoint_index(es, name)->0;
    let r = es.remove(k);
    assert forall|i: int| 0 <= i < r.len() implies (#[trigger] r[i]).name != name by {
        if i < k {
            assert(r[i] == es[i]);
        } else {
            assert(r[i] == es[i + 1]);
        }
    }
    lemma_filter_out_one(es, name, k);
}

proof fn lemma_filter_out_one(es: Seq<EndpointView>, name: Seq<char>, k: int)
    requires
        0 <= k < es.len(),
        es[k].name == name,
        forall|i: int| 0 <= i < es.len() && i != k ==> es[i].name != name,
    ensures
        es.remove(k) == es.filter(|e: EndpointView| e.name != name),
    decreases es.len(),
{
    reveal(Seq::filter);
    if k == es.len() - 1 {
        assert(es.remove(k) =~= es.drop_last());
        lemma_filter_keeps_all(es.drop_last(), name);
    } else {
        lemma_filter_out_one(es.drop_last(), name, k);
        assert(es.remove(k) =~= es.drop_last().remove(k).push(es.last()));
    }
}

proof fn lemma_filter_keeps_all(es: Seq<EndpointView>, name: Seq<char>)
    requires
        forall|i: int| 0 <= i < es.len() ==> es[i].name != name,
    ensures
        es == es.filter(|e: EndpointView| e.name != name),
    decreases es.len(),
{
    reveal(Seq::filter);
    if es.len() > 0 {
        lemma_filter_keeps_all(es.drop_last(), name);
        assert(es =~= es.drop_last().push(es.last()));
    }
}

/// Removes the first endpoint of `project` named `name`; returns whether there
/// was one.
pub fn remove_endpoint_named(project: &mut PersistedProject, name: &str) -> (removed: bool)
    ensures
        removed == endpoint_index(old(project)@.endpoints, name@) is Some,
        final(project)@ == match endpoint_index(old(project)@.endpoints, name@) {
            Some(i) => ProjectView { endpoints: old(project)@.endpoints.remove(i), ..old(project)@ },
            None => old(project)@,
        },
{
    let ghost es = project.endpoints.deep_view();
    match find_endpoint(&project.endpoints, name) {
        Some(i) => {
            project.endpoints.remove(i);
            proof {
                assert(project.endpoints.deep_view() =~= es.remove(i as int));
            }
            true
        },
        None => false,
    }
}

/// Whether two endpoints hold the same values in all their fields, headers
/// included.
pub fn endpoints_equal(a: &PersistedEndpoint, b: &PersistedEndpoint) -> (r: bool)
    ensures
        r == (a@ == b@),
{
    if !(str_eq(a.name.as_str(), b.name.as_str()) && str_eq(a.url.as_str(), b.url.as_str())
        && str_eq(a.method.as_str(), b.method.as_str()) && str_eq(a.body.as_str(), b.body.as_str())
        && str_eq(a.body_mode.as_str(), b.body_mode.as_str()) && str_eq(
        a.raw_type.as_str(),
        b.raw_type.as_str(),
    )) {
        return false;
    }
    if a.headers.len() != b.headers.len() {
        proof {
            assert(a@.headers.len() != b@.headers.len());
        }
        return false;
    }
    let ghost ha = a.headers.deep_view();
    let ghost hb = b.headers.deep_view();
    let mut i: usize = 0;
    while i < a.headers.len()
        invariant
            i <= a.headers.len(),
            a.headers.len() == b.headers.len(),
            ha == a.headers.deep_view(),
            hb == b.headers.deep_view(),
            forall|k: int| 0 <= k < i ==> ha[k] == hb[k],
        decreases a.headers.len() - i,
    {
        if !(str_eq(a.headers[i].name.as_str(), b.headers[i].name.as_str()) && str_eq(
            a.headers[i].value.as_str(),
            b.headers[i].value.as_str(),
        )) {
            proof {
                assert(ha[i as int] != hb[i as int]);
            }
            return false;
        }
        i += 1;
    }
    proof {
        assert(ha =~= hb);
        assert(a@ == b@);
    }
    true
}

} // verus!
