//! What a request is made of: its content type, the headers sent, and the body
//! in the form the body mode calls for; and what is shown of a response.
use vstd::prelude::*;

use crate::projects::{EndpointView, Header, HeaderView, PersistedEndpoint};
use crate::text::{
    chars_from, chars_of, find_char, first_index, lowercase, segments, split_segments, str_eq,
    string_of, to_lowercase,
};

verus! {

/// The content type of a request body, from the body mode and, for raw bodies,
/// the lowercased raw type.
pub open spec fn content_type_for(body_mode: Seq<char>, raw_type_lower: Seq<char>) -> Option<
    Seq<char>,
> {
    if body_mode == "formdata"@ {
        Some("multipart/form-data"@)
    } else if body_mode == "x-www-form-urlencoded"@ {
        Some("application/x-www-form-urlencoded"@)
    } else if body_mode == "graphql"@ {
        Some("application/json"@)
    } else if body_mode == "raw"@ {
        if raw_type_lower == "text"@ {
            Some("text/plain"@)
        } else if raw_type_lower == "javascript"@ {
            Some("application/javascript"@)
        } else if raw_type_lower == "json"@ {
            Some("application/json"@)
        } else if raw_type_lower == "html"@ {
            Some("text/html"@)
        } else if raw_type_lower == "xml"@ {
            Some("text/xml"@)
        } else {
            None
        }
    } else {
        None
    }
}

/// The content type an endpoint's request is sent with.
pub open spec fn endpoint_content_type(e: EndpointView) -> Option<Seq<char>> {
    content_type_for(e.body_mode, lowercase(e.raw_type))
}

/// The content type of the request body of `endpoint`; none for the `none`
/// body mode and for modes and raw types it does not know.
pub fn get_content_type(endpoint: &PersistedEndpoint) -> (r: Option<String>)
    ensures
        r.deep_view() == endpoint_content_type(endpoint@),
{
    proof {
        reveal_strlit("none");
        reveal_strlit("formdata");
        reveal_strlit("x-www-form-urlencoded");
        reveal_strlit("graphql");
        reveal_strlit("raw");
    }
    let mode = endpoint.body_mode.as_str();
    if str_eq(mode, "none") {
        assert("none"@.len() == 4);
        assert("formdata"@.len() == 8);
        None
    } else if str_eq(mode, "formdata") {
        Some("multipart/form-data".to_owned())
    } else if str_eq(mode, "x-www-form-urlencoded") {
        Some("application/x-www-form-urlencoded".to_owned())
    } else if str_eq(mode, "graphql") {
        Some("application/json".to_owned())
    } else if str_eq(mode, "raw") {
        let lower = to_lowercase(endpoint.raw_type.as_str());
        let l = lower.as_str();
        if str_eq(l, "text") {
            Some("text/plain".to_owned())
        } else if str_eq(l, "javascript") {
            Some("application/javascript".to_owned())
        } else if str_eq(l, "json") {
            Some("application/json".to_owned())
        } else if str_eq(l, "html") {
            Some("text/html".to_owned())
        } else if str_eq(l, "xml") {
            Some("text/xml".to_owned())
        } else {
            None
        }
    } else {
        None
    }
}

/// One `key=value` field of a form body.
#[derive(Debug)]
pub struct FormField {
    pub key: String,
    pub value: String,
}

pub struct FormFieldView {
    pub key: Seq<char>,
    pub value: Seq<char>,
}

impl View for FormField {
    type V = FormFieldView;

    open spec fn view(&self) -> FormFieldView {
        FormFieldView { key: self.key@, value: self.value@ }
    }
}

impl DeepView for FormField {
    type V = FormFieldView;

    open spec fn deep_view(&self) -> FormFieldView {
        self@
    }
}

/// Index of the first `'='` in `s`, if any.
pub open spec fn first_eq(s: Seq<char>) -> Option<int> {
    if exists|i: int| 0 <= i < s.len() && s[i] == '=' {
        Some(choose|i: int| 0 <= i < s.len() && s[i] == '=' && forall|j: int| 0 <= j < i ==> s[j] != '=')
    } else {
        None
    }
}

/// The fields of a form body: each line that holds an `'='`, split at the first
/// one (`str::split_once`), lines without one left out.
pub open spec fn form_fields(segs: Seq<Seq<char>>) -> Seq<FormFieldView>
    decreases segs.len(),
{
    if segs.len() == 0 {
        Seq::empty()
    } else {
        let rest = form_fields(segs.drop_last());
        let l = segs.last();
        match first_eq(l) {
            Some(i) => rest.push(FormFieldView { key: l.take(i), value: l.skip(i + 1) }),
            None => rest,
        }
    }
}

/// Some `'='` of `s` at or before index `i` has no `'='` before it.
proof fn lemma_first_eq_exists(s: Seq<char>, i: int)
    requires
        0 <= i < s.len(),
        s[i] == '=',
    ensures
        exists|m: int| 0 <= m < s.len() && s[m] == '=' && forall|j: int| 0 <= j < m ==> s[j] != '=',
    decreases i,
{
    if exists|j: int| 0 <= j < i && s[j] == '=' {
        let j = choose|j: int| 0 <= j < i && s[j] == '=';
        lemma_first_eq_exists(s, j);
    } else {
        assert(forall|j: int| 0 <= j < i ==> s[j] != '=');
    }
}

/// `first_eq` gives the index of the first `'='` of `s`, and nothing exactly
/// when `s` holds none.
proof fn lemma_first_eq_is_first(s: Seq<char>)
    ensures
        first_eq(s) is None <==> !s.contains('='),
        first_eq(s) matches Some(i) ==> 0 <= i < s.len() && s[i] == '=' && forall|j: int|
            0 <= j < i ==> s[j] != '=',
{
    if exists|i: int| 0 <= i < s.len() && s[i] == '=' {
        let i = choose|i: int| 0 <= i < s.len() && s[i] == '=';
        lemma_first_eq_exists(s, i);
    }
}

/// The lines among `segs` that hold an `'='`, in order.
pub open spec fn lines_with_eq(segs: Seq<Seq<char>>) -> Seq<Seq<char>> {
    segs.filter(|l: Seq<char>| l.contains('='))
}

/// Every line that holds an `'='` gives exactly one form field, in order, and
/// only those lines do: there are as many fields as such lines, and the `k`-th
/// field is the `k`-th such line cut at its first `'='`: its key holds no
/// `'='`, and key, `'='` and value (possibly empty) put together give the line
/// back.
pub proof fn lemma_form_fields_one_per_line_with_eq(segs: Seq<Seq<char>>)
    ensures
        form_fields(segs).len() == lines_with_eq(segs).len(),
        forall|k: int|
            0 <= k < form_fields(segs).len() ==> {
                &&& !(#[trigger] form_fields(segs)[k]).key.contains('=')
                &&& form_fields(segs)[k].key + seq!['='] + form_fields(segs)[k].value
                    == lines_with_eq(segs)[k]
            },
    decreases segs.len(),
{
    reveal(Seq::filter);
    if segs.len() > 0 {
        lemma_form_fields_one_per_line_with_eq(segs.drop_last());
        let l = segs.last();
        let rest = form_fields(segs.drop_last());
        match first_eq(l) {
            Some(i) => {
                lemma_first_eq_is_first(l);
                assert(l.contains('='));
                let f = FormFieldView { key: l.take(i), value: l.skip(i + 1) };
                assert(f.key + seq!['='] + f.value =~= l);
                assert(form_fields(segs) == rest.push(f));
                assert(lines_with_eq(segs) == lines_with_eq(segs.drop_last()).push(l));
            },
            None => {
                lemma_first_eq_is_first(l);
                assert(!l.contains('='));
                assert(lines_with_eq(segs) == lines_with_eq(segs.drop_last()));
            },
        }
    }
}

/// Position of the first `'='` in `v`.
fn find_eq(v: &Vec<char>) -> (r: Option<usize>)
    ensures
        r matches Some(i) ==> first_eq(v@) == Some(i as int) && i < v.len() && v@[i as int] == '='
            && forall|j: int| 0 <= j < i ==> v@[j] != '=',
        r is None ==> first_eq(v@) is None,
{
    let mut i: usize = 0;
    while i < v.len()
        invariant
            i <= v.len(),
            forall|j: int| 0 <= j < i ==> v[j] != '=',
        decreases v.len() - i,
    {
        if v[i] == '=' {
            proof {
                let k = choose|k: int|
                    0 <= k < v@.len() && v@[k] == '=' && forall|j: int| 0 <= j < k ==> v@[j] != '=';
                assert(k == i) by {
                    if k < i {
                    } else if k > i {
                        assert(v@[i as int] != '=');
                    }
                }
            }
            return Some(i);
        }
        i += 1;
    }
    None
}

/// The `key=value` fields of a form body, one per line.
pub fn form_pairs(body: &str) -> (r: Vec<FormField>)
    ensures
        r.deep_view() == form_fields(segments(body@)),
{
    let chars = chars_of(body);
    let segs = split_segments(&chars);
    let ghost p = segments(chars@);
    let mut r: Vec<FormField> = Vec::new();
    let mut k: usize = 0;
    while k < segs.len()
        invariant
            k <= segs.len(),
            segs.len() == p.len(),
            forall|j: int| 0 <= j < segs.len() ==> segs[j]@ == #[trigger] p[j],
            r.deep_view() == form_fields(p.take(k as int)),
        decreases segs.len() - k,
    {
        let seg = &segs[k];
        proof {
            assert(p.take(k as int + 1).drop_last() =~= p.take(k as int));
        }
        match find_eq(seg) {
            Some(i) => {
                let mut key: Vec<char> = Vec::new();
                let mut j: usize = 0;
                while j < i
                    invariant
                        j <= i < seg.len(),
                        key@ == seg@.take(j as int),
                    decreases i - j,
                {
                    key.push(seg[j]);
                    proof {
                        assert(key@ =~= seg@.take(j as int + 1));
                    }
                    j += 1;
                }
                let mut value: Vec<char> = Vec::new();
                let mut j = i + 1;
                while j < seg.len()
                    invariant
                        i + 1 <= j <= seg.len(),
                        value@ == seg@.subrange(i + 1, j as int),
                    decreases seg.len() - j,
                {
                    value.push(seg[j]);
                    proof {
                        assert(value@ =~= seg@.subrange(i + 1, j as int + 1));
                    }
                    j += 1;
                }
                proof {
                    assert(value@ =~= seg@.skip(i + 1));
                }
                r.push(FormField { key: string_of(key.as_slice()), value: string_of(value.as_slice()) });
                proof {
                    assert(r.deep_view() =~= form_fields(p.take(k as int + 1)));
                }
            },
            None => {},
        }
        k += 1;
    }
    proof {
        assert(p.take(k as int) =~= p);
    }
    r
}

/// How the body of a request is sent.
#[derive(Debug)]
pub enum RequestBody {
    /// The text as it is.
    Text(String),
    /// URL-encoded form fields.
    Form(Vec<FormField>),
    /// Multipart form fields.
    Multipart(Vec<FormField>),
}

/// Everything a request is made of.
#[derive(Debug)]
pub struct RequestPlan {
    pub method: String,
    pub url: String,
    pub headers: Vec<Header>,
    pub body: RequestBody,
}

/// The headers sent with a request: all but those whose lowercased name is
/// `content-type` (the body mode decides the content type).
pub open spec fn headers_sent(hs: Seq<HeaderView>) -> Seq<HeaderView>
    decreases hs.len(),
{
    if hs.len() == 0 {
        Seq::empty()
    } else if lowercase(hs.last().name) == "content-type"@ {
        headers_sent(hs.drop_last())
    } else {
        headers_sent(hs.drop_last()).push(hs.last())
    }
}

/// The headers whose lowercased name is not `content-type`, in order.
pub open spec fn non_content_type_headers(hs: Seq<HeaderView>) -> Seq<HeaderView> {
    hs.filter(|h: HeaderView| lowercase(h.name) != "content-type"@)
}

/// A request sends every header of its endpoint, in order, but those named
/// `content-type` in any letter case, which it leaves out.
pub proof fn lemma_headers_sent_drop_only_content_type(hs: Seq<HeaderView>)
    ensures
        headers_sent(hs) == non_content_type_headers(hs),
    decreases hs.len(),
{
    reveal(Seq::filter);
    if hs.len() > 0 {
        lemma_headers_sent_drop_only_content_type(hs.drop_last());
    }
}

/// The content type of a request: `multipart/form-data` for form data,
/// `application/x-www-form-urlencoded` for URL-encoded forms and `application/json`
/// for GraphQL, whatever the raw type; for raw bodies it follows the raw type
/// in any letter case (`json` and JSON alike); there is none for any other
/// body mode.
pub proof fn lemma_content_type_by_mode(e1: EndpointView, e2: EndpointView)
    ensures
        e1.body_mode == "formdata"@ ==> endpoint_content_type(e1) == Some("multipart/form-data"@),
        e1.body_mode == "x-www-form-urlencoded"@ ==> endpoint_content_type(e1) == Some(
            "application/x-www-form-urlencoded"@,
        ),
        e1.body_mode == "graphql"@ ==> endpoint_content_type(e1) == Some("application/json"@),
        e1.body_mode == "raw"@ && lowercase(e1.raw_type) == "json"@ ==> endpoint_content_type(e1)
            == Some("application/json"@),
        e1.body_mode == "raw"@ && lowercase(e1.raw_type) == "text"@ ==> endpoint_content_type(e1)
            == Some("text/plain"@),
        e1.body_mode == "raw"@ && lowercase(e1.raw_type) == "html"@ ==> endpoint_content_type(e1)
            == Some("text/html"@),
        e1.body_mode == "raw"@ && lowercase(e1.raw_type) == "xml"@ ==> endpoint_content_type(e1)
            == Some("text/xml"@),
        e1.body_mode == "raw"@ && lowercase(e1.raw_type) == "javascript"@ ==> endpoint_content_type(
            e1,
        ) == Some("application/javascript"@),
        e1.body_mode == "none"@ ==> endpoint_content_type(e1) is None,
        e1.body_mode == e2.body_mode && lowercase(e1.raw_type) == lowercase(e2.raw_type)
            ==> endpoint_content_type(e1) == endpoint_content_type(e2),
        e1.body_mode != "raw"@ && e1.body_mode == e2.body_mode ==> endpoint_content_type(e1)
            == endpoint_content_type(e2),
{
    reveal_strlit("none");
    reveal_strlit("formdata");
    reveal_strlit("x-www-form-urlencoded");
    reveal_strlit("graphql");
    reveal_strlit("raw");
    assert("none"@.len() == 4);
    assert("formdata"@.len() == 8);
    assert("x-www-form-urlencoded"@.len() == 21);
    assert("graphql"@.len() == 7);
    assert("raw"@.len() == 3);
    reveal_strlit("text");
    reveal_strlit("javascript");
    reveal_strlit("json");
    reveal_strlit("html");
    reveal_strlit("xml");
    assert("text"@.len() == 4 && "json"@.len() == 4 && "html"@.len() == 4);
    assert("javascript"@.len() == 10);
    assert("xml"@.len() == 3);
    assert("text"@[0] == 't' && "json"@[0] == 'j' && "html"@[0] == 'h');
}

/// Whether a request of content type `ct` sends its body text as it is.
pub open spec fn sends_text(ct: Seq<char>) -> bool {
    ct == "application/json"@ || ct == "application/javascript"@ || ct == "text/plain"@ || ct
        == "text/html"@ || ct == "text/xml"@
}

/// The body a request of endpoint `e` sends: the text for text content types,
/// the form fields (sent URL-encoded) for `application/x-www-form-urlencoded`,
/// the form fields (sent as multipart) for `multipart/form-data`, and an empty
/// text otherwise.
pub open spec fn body_sent(e: EndpointView, body: RequestBody) -> bool {
    match endpoint_content_type(e) {
        Some(ct) => if sends_text(ct) {
            body matches RequestBody::Text(t) && t@ == e.body
        } else if ct == "application/x-www-form-urlencoded"@ {
            body matches RequestBody::Form(f) && f.deep_view() == form_fields(segments(e.body))
        } else if ct == "multipart/form-data"@ {
            body matches RequestBody::Multipart(f) && f.deep_view() == form_fields(segments(e.body))
        } else {
            body matches RequestBody::Text(t) && t@ == Seq::<char>::empty()
        },
        None => body matches RequestBody::Text(t) && t@ == Seq::<char>::empty(),
    }
}

/// The request `endpoint` is sent as.
pub fn plan_request(endpoint: &PersistedEndpoint) -> (r: RequestPlan)
    ensures
        r.method@ == endpoint.method@,
        r.url@ == endpoint.url@,
        r.headers.deep_view() == headers_sent(endpoint.headers.deep_view()),
        body_sent(endpoint@, r.body),
{
    let content_type = get_content_type(endpoint);
    let mut headers: Vec<Header> = Vec::new();
    let mut i: usize = 0;
    while i < endpoint.headers.len()
        invariant
            i <= endpoint.headers.len(),
            headers.deep_view() == headers_sent(endpoint.headers.deep_view().take(i as int)),
        decreases endpoint.headers.len() - i,
    {
        let header = &endpoint.headers[i];
        proof {
            assert(endpoint.headers.deep_view().take(i as int + 1).drop_last()
                =~= endpoint.headers.deep_view().take(i as int));
        }
        let lower = to_lowercase(header.name.as_str());
        if !str_eq(lower.as_str(), "content-type") {
            headers.push(Header { name: header.name.clone(), value: header.value.clone() });
        }
        proof {
            assert(headers.deep_view() =~= headers_sent(endpoint.headers.deep_view().take(i as int + 1)));
        }
        i += 1;
    }
    proof {
        assert(endpoint.headers.deep_view().take(i as int) =~= endpoint.headers.deep_view());
    }
    let body = match content_type {
        Some(ct) => {
            let c = ct.as_str();
            if str_eq(c, "application/json") || str_eq(c, "application/javascript") || str_eq(
                c,
                "text/plain",
            ) || str_eq(c, "text/html") || str_eq(c, "text/xml") {
                RequestBody::Text(endpoint.body.clone())
            } else if str_eq(c, "application/x-www-form-urlencoded") {
                RequestBody::Form(form_pairs(endpoint.body.as_str()))
            } else if str_eq(c, "multipart/form-data") {
                RequestBody::Multipart(form_pairs(endpoint.body.as_str()))
            } else {
                RequestBody::Text(String::new())
            }
        },
        None => RequestBody::Text(String::new()),
    };
    RequestPlan { method: endpoint.method.clone(), url: endpoint.url.clone(), headers, body }
}

/// The decimal digit for `d`.
pub open spec fn digit(d: int) -> char {
    (48 + d) as char
}

/// The decimal numeral of `n`.
pub open spec fn decimal(n: nat) -> Seq<char>
    decreases n,
{
    if n < 10 {
        seq![digit(n as int)]
    } else {
        decimal(n / 10).push(digit((n % 10) as int))
    }
}

/// The number that the decimal digits `s` stand for.
pub open spec fn digits_value(s: Seq<char>) -> int
    decreases s.len(),
{
    if s.len() == 0 {
        0
    } else {
        digits_value(s.drop_last()) * 10 + (s.last() as int - 48)
    }
}

/// The numeral of `n` is made of decimal digits, has no leading zero (but for
/// zero itself), and reads back as `n`.
pub proof fn lemma_decimal_reads_back(n: nat)
    ensures
        digits_value(decimal(n)) == n,
        decimal(n).len() >= 1,
        forall|i: int| 0 <= i < decimal(n).len() ==> '0' <= #[trigger] decimal(n)[i] <= '9',
        decimal(n)[0] == '0' ==> n == 0,
    decreases n,
{
    let d = (n % 10) as int;
    assert(digit(d) as int == 48 + d);
    assert((n / 10) * 10 + d == n);
    if n >= 10 {
        lemma_decimal_reads_back(n / 10);
        let p = decimal(n / 10);
        assert(decimal(n) == p.push(digit((n % 10) as int)));
        assert(decimal(n).drop_last() =~= p);
        assert(digits_value(decimal(n)) == digits_value(p) * 10 + d);
        assert(decimal(n)[0] == p[0]);
        assert forall|i: int| 0 <= i < decimal(n).len() implies '0' <= #[trigger] decimal(n)[i]
            <= '9' by {
            if i < p.len() {
                assert(decimal(n)[i] == p[i]);
            }
        }
    } else {
        assert(decimal(n).drop_last() =~= Seq::<char>::empty());
        assert(digits_value(decimal(n)) == digits_value(Seq::<char>::empty()) * 10 + d);
    }
}

fn push_decimal(n: u16, out: &mut Vec<char>)
    ensures
        final(out)@ == old(out)@ + decimal(n as nat),
    decreases n,
{
    if n >= 10 {
        push_decimal(n / 10, out);
    }
    let d = (n % 10) as u8;
    out.push((48u8 + d) as char);
    proof {
        if n >= 10 {
            assert(decimal(n as nat) == decimal((n / 10) as nat).push(digit((n % 10) as int)));
        }
    }
}

/// The title of the response window for a response with status `status`.
pub open spec fn status_title(status: u16) -> Seq<char> {
    "Response Body (Status Code: "@ + decimal(status as nat) + ")"@
}

/// The title of the response window for a response with status `status`.
pub fn status_label(status: u16) -> (r: String)
    ensures
        r@ == status_title(status),
{
    let mut digits: Vec<char> = Vec::new();
    push_decimal(status, &mut digits);
    let mut r = "Response Body (Status Code: ".to_owned();
    let d = string_of(digits.as_slice());
    r.append(d.as_str());
    r.append(")");
    proof {
        assert(digits@ =~= Seq::<char>::empty() + decimal(status as nat));
    }
    r
}

/// The extension a response is saved and highlighted as: what follows the first
/// `'/'` of the last `content-type` header (names compared lowercased) that has
/// one, and `txt` when there is none.
pub open spec fn response_ext(hs: Seq<HeaderView>) -> Seq<char>
    decreases hs.len(),
{
    if hs.len() == 0 {
        "txt"@
    } else {
        let h = hs.last();
        if lowercase(h.name) == "content-type"@ && first_index(h.value, '/') is Some {
            h.value.skip(first_index(h.value, '/')->0 + 1)
        } else {
            response_ext(hs.drop_last())
        }
    }
}

/// The extension of a response with the headers `headers`.
pub fn response_extension(headers: &Vec<Header>) -> (r: String)
    ensures
        r@ == response_ext(headers.deep_view()),
{
    let mut ext = "txt".to_owned();
    let ghost hs = headers.deep_view();
    let mut i: usize = 0;
    while i < headers.len()
        invariant
            i <= headers.len(),
            hs == headers.deep_view(),
            ext@ == response_ext(hs.take(i as int)),
        decreases headers.len() - i,
    {
        let h = &headers[i];
        proof {
            assert(hs.take(i as int + 1).drop_last() =~= hs.take(i as int));
            assert(hs.take(i as int + 1).last() == h.deep_view());
        }
        let name = to_lowercase(h.name.as_str());
        if str_eq(name.as_str(), "content-type") {
            let value = chars_of(h.value.as_str());
            match find_char(&value, '/') {
                Some(k) => {
                    ext = string_of(chars_from(&value, k + 1).as_slice());
                },
                None => {},
            }
        }
        i += 1;
    }
    proof {
        assert(hs.take(i as int) =~= hs);
    }
    ext
}

/// Index of the first `c` in `s`, nothing exactly when `s` holds no `c`.
proof fn lemma_first_index_is_first(s: Seq<char>, c: char)
    ensures
        first_index(s, c) is None <==> !s.contains(c),
        first_index(s, c) matches Some(i) ==> 0 <= i < s.len() && s[i] == c && forall|j: int|
            0 <= j < i ==> s[j] != c,
{
    if exists|i: int| 0 <= i < s.len() && s[i] == c {
        let i = choose|i: int| 0 <= i < s.len() && s[i] == c;
        lemma_first_index_exists(s, c, i);
    }
}

proof fn lemma_first_index_exists(s: Seq<char>, c: char, i: int)
    requires
        0 <= i < s.len(),
        s[i] == c,
    ensures
        exists|m: int| 0 <= m < s.len() && s[m] == c && forall|j: int| 0 <= j < m ==> s[j] != c,
    decreases i,
{
    if exists|j: int| 0 <= j < i && s[j] == c {
        let j = choose|j: int| 0 <= j < i && s[j] == c;
        lemma_first_index_exists(s, c, j);
    } else {
        assert(forall|j: int| 0 <= j < i ==> s[j] != c);
    }
}

/// A header that tells the response's type: named `content-type` in any letter
/// case, with a `'/'` in its value.
pub open spec fn is_type_header(h: HeaderView) -> bool {
    lowercase(h.name) == "content-type"@ && h.value.contains('/')
}

/// A response is saved as `txt` when no header tells its type; otherwise its
/// extension is what follows the first `'/'` in the value of the last header
/// that tells its type.
pub proof fn lemma_response_ext_from_last_type_header(hs: Seq<HeaderView>, k: int)
    ensures
        (forall|m: int| 0 <= m < hs.len() ==> !is_type_header(#[trigger] hs[m]))
            ==> response_ext(hs) == "txt"@,
        0 <= k < hs.len() && is_type_header(hs[k]) && (forall|m: int|
            k < m < hs.len() ==> !is_type_header(#[trigger] hs[m])) ==> exists|p: Seq<char>|
            !p.contains('/') && hs[k].value == p + seq!['/'] + response_ext(hs),
    decreases hs.len(),
{
    if hs.len() > 0 {
        let h = hs.last();
        let rest = hs.drop_last();
        lemma_first_index_is_first(h.value, '/');
        if forall|m: int| 0 <= m < hs.len() ==> !is_type_header(#[trigger] hs[m]) {
            assert(!is_type_header(hs[hs.len() - 1]));
            lemma_response_ext_from_last_type_header(rest, k);
            assert forall|m: int| 0 <= m < rest.len() implies !is_type_header(#[trigger] rest[m]) by {
                assert(rest[m] == hs[m]);
            }
        }
        if 0 <= k < hs.len() && is_type_header(hs[k]) && (forall|m: int|
            k < m < hs.len() ==> !is_type_header(#[trigger] hs[m])) {
            if k == hs.len() - 1 {
                let i = first_index(h.value, '/')->0;
                let p = h.value.take(i);
                assert(!p.contains('/')) by {
                    if p.contains('/') {
                        let j = choose|j: int| 0 <= j < p.len() && p[j] == '/';
                        assert(h.value[j] == '/');
                    }
                }
                assert(h.value =~= p + seq!['/'] + h.value.skip(i + 1));
            } else {
                assert(!is_type_header(h));
                lemma_response_ext_from_last_type_header(rest, k);
                assert(rest[k] == hs[k]);
                assert forall|m: int| k < m < rest.len() implies !is_type_header(#[trigger] rest[m]) by {
                    assert(rest[m] == hs[m]);
                }
            }
        }
    }
}

} // verus!
