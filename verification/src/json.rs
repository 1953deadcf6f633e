//! The structured document the run record serializes to, and the
//! serialization of every piece of the record.
//!
//! The document is a JSON-shaped tree of plain values; field order is fixed,
//! and an optional field is left out entirely rather than rendered as null or
//! false. Numeric fields are integer counts, never floating point.

use vstd::prelude::*;

use crate::asserts::AssertResult;
use crate::datetime::rfc3339_utc_micros;
use crate::datetime::utc_date_display;
use crate::error::RunnerErrorV;
use crate::http::Call;
use crate::http::Certificate;
use crate::http::Cookie;
use crate::http::Header;
use crate::http::HttpVersion;
use crate::http::Param;
use crate::http::Request;
use crate::http::RequestCookie;
use crate::http::Response;
use crate::http::ResponseCookie;
use crate::http::Timings;
use crate::num::hex_rep;
use crate::num::i64_to_string;
use crate::num::bytes_to_hex;
use crate::report::CaptureResult;
use crate::report::EntryResult;
use crate::report::HurlResult;
use crate::value::Number;
use crate::value::Value;
use crate::value::ValueV;
use crate::value::views_of;
use crate::value::lemma_views_of;

verus! {

broadcast use {vstd::seq::group_seq_axioms, vstd::std_specs::vec::group_vec_axioms};

/// One field of a JSON object.
#[derive(Debug, PartialEq)]
pub struct JField {
    pub key: String,
    pub value: JValue,
}

/// A JSON-shaped document: the stable output of the serializer.
#[derive(Debug, PartialEq)]
pub enum JValue {
    Null,
    Bool(bool),
    /// an unsigned integer count (an index, a status, a duration)
    Num(u64),
    /// a signed integer value
    Int(i64),
    Str(String),
    Arr(Vec<JValue>),
    Obj(Vec<JField>),
}

/// Spec-level mirror of `JValue`, over sequences.
#[verifier::ext_equal]
pub enum JModel {
    Null,
    Bool(bool),
    Num(u64),
    Int(i64),
    Str(Seq<char>),
    Arr(Seq<JModel>),
    Obj(Seq<(Seq<char>, JModel)>),
}

impl View for JValue {
    type V = JModel;

    open spec fn view(&self) -> JModel
        decreases self,
    {
        match self {
            JValue::Null => JModel::Null,
            JValue::Bool(b) => JModel::Bool(*b),
            JValue::Num(n) => JModel::Num(*n),
            JValue::Int(n) => JModel::Int(*n),
            JValue::Str(s) => JModel::Str(s@),
            JValue::Arr(items) => JModel::Arr(jmodels_of(items@)),
            JValue::Obj(fields) => JModel::Obj(jfields_of(fields@)),
        }
    }
}

/// The views of the values of a sequence, in order.
pub open spec fn jmodels_of(s: Seq<JValue>) -> Seq<JModel>
    decreases s,
{
    if s.len() == 0 {
        Seq::empty()
    } else {
        jmodels_of(s.drop_last()).push(s.last()@)
    }
}

/// The key/view pairs of a sequence of fields, in order.
pub open spec fn jfields_of(s: Seq<JField>) -> Seq<(Seq<char>, JModel)>
    decreases s,
{
    if s.len() == 0 {
        Seq::empty()
    } else {
        jfields_of(s.drop_last()).push((s.last().key@, s.last().value@))
    }
}

/// `jmodels_of` maps the sequence elementwise.
pub broadcast proof fn lemma_jmodels_of(s: Seq<JValue>)
    ensures
        (#[trigger] jmodels_of(s)).len() == s.len(),
        forall|i: int| 0 <= i < s.len() ==> jmodels_of(s)[i] == s[i]@,
    decreases s.len(),
{
    if s.len() == 0 {
        assert(jmodels_of(s).len() == 0);
    } else {
        lemma_jmodels_of(s.drop_last());
        assert(jmodels_of(s) == jmodels_of(s.drop_last()).push(s.last()@));
        assert forall|i: int| 0 <= i < s.len() implies jmodels_of(s)[i] == s[i]@ by {
            if i < s.len() - 1 {
                assert(s.drop_last()[i] == s[i]);
            }
        }
    }
}

/// `jfields_of` maps the sequence elementwise.
pub broadcast proof fn lemma_jfields_of(s: Seq<JField>)
    ensures
        (#[trigger] jfields_of(s)).len() == s.len(),
        forall|i: int| 0 <= i < s.len() ==> jfields_of(s)[i] == (s[i].key@, s[i].value@),
    decreases s.len(),
{
    if s.len() == 0 {
        assert(jfields_of(s).len() == 0);
    } else {
        lemma_jfields_of(s.drop_last());
        assert(jfields_of(s) == jfields_of(s.drop_last()).push(
            (s.last().key@, s.last().value@),
        ));
        assert forall|i: int| 0 <= i < s.len() implies jfields_of(s)[i] == (
            s[i].key@,
            s[i].value@,
        ) by {
            if i < s.len() - 1 {
                assert(s.drop_last()[i] == s[i]);
            }
        }
    }
}

/// A string field.
fn sfield(key: &'static str, value: &String) -> (f: JField)
    ensures
        f.key@ == key@,
        f.value@ == JModel::Str(value@),
{
    JField { key: String::from_str(key), value: JValue::Str(value.clone()) }
}

/// An owned string field.
fn sfield_owned(key: &'static str, value: String) -> (f: JField)
    ensures
        f.key@ == key@,
        f.value@ == JModel::Str(value@),
{
    JField { key: String::from_str(key), value: JValue::Str(value) }
}

/// An unsigned count field.
fn nfield(key: &'static str, value: u64) -> (f: JField)
    ensures
        f.key@ == key@,
        f.value@ == JModel::Num(value),
{
    JField { key: String::from_str(key), value: JValue::Num(value) }
}

/// A boolean field.
fn bfield(key: &'static str, value: bool) -> (f: JField)
    ensures
        f.key@ == key@,
        f.value@ == JModel::Bool(value),
{
    JField { key: String::from_str(key), value: JValue::Bool(value) }
}

/// A field holding an already-built value.
fn vfield(key: &'static str, value: JValue) -> (f: JField)
    ensures
        f.key@ == key@,
        f.value@ == value@,
{
    JField { key: String::from_str(key), value }
}

impl Value {
    /// The meaning of `Value::to_json`: booleans, numbers and strings map to
    /// themselves, a list maps to an array, bytes map to their hexadecimal
    /// rendering, a nodeset to its node count, and null to null.
    pub open spec fn json(v: ValueV) -> JModel
        decreases v,
    {
        match v {
            ValueV::Bool(b) => JModel::Bool(b),
            ValueV::Bytes(bytes) => JModel::Str(hex_rep(bytes)),
            ValueV::List(items) => JModel::Arr(Value::jsons(items)),
            ValueV::Nodeset(n) => JModel::Num(n as u64),
            ValueV::Null => JModel::Null,
            ValueV::Number(Number::Integer(n)) => JModel::Int(n),
            ValueV::String(s) => JModel::Str(s),
        }
    }

    /// The serializations of the values of a sequence, in order.
    pub open spec fn jsons(s: Seq<ValueV>) -> Seq<JModel>
        decreases s,
    {
        if s.len() == 0 {
            Seq::empty()
        } else {
            Value::jsons(s.drop_last()).push(Value::json(s.last()))
        }
    }

    /// Serializes the value.
    pub fn to_json(&self) -> (r: JValue)
        ensures
            r@ == Value::json(self@),
        decreases self,
    {
        match self {
            Value::Bool(b) => JValue::Bool(*b),
            Value::Bytes(bytes) => JValue::Str(bytes_to_hex(bytes)),
            Value::List(items) => {
                proof {
                    lemma_views_of(items@);
                    lemma_value_jsons(views_of(items@));
                }
                let mut out: Vec<JValue> = Vec::new();
                let mut i: usize = 0;
                #[verifier::loop_isolation(false)]
                while i < items.len()
                    invariant
                        i <= items@.len(),
                        out@.len() == i,
                        forall|j: int| 0 <= j < i ==> out@[j]@ == Value::json(items@[j]@),
                    decreases items@.len() - i,
                {
                    let v = items[i].to_json();
                    out.push(v);
                    i = i + 1;
                }
                let r = JValue::Arr(out);
                proof {
                    let ghost inner = r->Arr_0@;
                    lemma_jmodels_of(inner);
                    assert(jmodels_of(inner) =~= Value::jsons(views_of(items@)));
                    assert(r@ =~= Value::json(self@));
                }
                r
            },
            Value::Nodeset(n) => JValue::Num(*n as u64),
            Value::Null => JValue::Null,
            Value::Number(Number::Integer(n)) => JValue::Int(*n),
            Value::String(s) => JValue::Str(s.clone()),
        }
    }
}

/// `Value::jsons` maps the sequence elementwise.
pub broadcast proof fn lemma_value_jsons(s: Seq<ValueV>)
    ensures
        (#[trigger] Value::jsons(s)).len() == s.len(),
        forall|i: int| 0 <= i < s.len() ==> Value::jsons(s)[i] == Value::json(s[i]),
    decreases s.len(),
{
    if s.len() == 0 {
        assert(Value::jsons(s).len() == 0);
    } else {
        lemma_value_jsons(s.drop_last());
        assert(Value::jsons(s) == Value::jsons(s.drop_last()).push(Value::json(s.last())));
        assert forall|i: int| 0 <= i < s.len() implies Value::jsons(s)[i] == Value::json(
            s[i],
        ) by {
            if i < s.len() - 1 {
                assert(s.drop_last()[i] == s[i]);
            }
        }
    }
}

impl Header {
    /// An object with the header's name and value.
    pub open spec fn json(self) -> JModel {
        JModel::Obj(
            seq![("name"@, JModel::Str(self.name@)), ("value"@, JModel::Str(self.value@))],
        )
    }

    pub fn to_json(&self) -> (r: JValue)
        ensures
            r@ == self.json(),
    {
        let mut fields: Vec<JField> = Vec::new();
        fields.push(sfield("name", &self.name));
        fields.push(sfield("value", &self.value));
        let ghost fs = fields@;
        let r = JValue::Obj(fields);
        proof {
            lemma_jfields_of(fs);
            assert(jfields_of(fs) =~= self.json()->Obj_0);
            assert(r@ =~= self.json());
        }
        r
    }
}

impl HttpVersion {
    /// The version's stable rendering.
    pub open spec fn rendered(self) -> Seq<char> {
        match self {
            HttpVersion::Http10 => "HTTP/1.0"@,
            HttpVersion::Http11 => "HTTP/1.1"@,
            HttpVersion::Http2 => "HTTP/2"@,
            HttpVersion::Http3 => "HTTP/3"@,
        }
    }

    /// The version's rendering as a string value.
    pub open spec fn json(self) -> JModel {
        JModel::Str(self.rendered())
    }

    pub fn to_json(self) -> (r: JValue)
        ensures
            r@ == self.json(),
    {
        let value = match self {
            HttpVersion::Http10 => "HTTP/1.0",
            HttpVersion::Http11 => "HTTP/1.1",
            HttpVersion::Http2 => "HTTP/2",
            HttpVersion::Http3 => "HTTP/3",
        };
        JValue::Str(String::from_str(value))
    }
}

impl Param {
    /// An object with the parameter's name and value.
    pub open spec fn json(self) -> JModel {
        JModel::Obj(
            seq![("name"@, JModel::Str(self.name@)), ("value"@, JModel::Str(self.value@))],
        )
    }

    pub fn to_json(&self) -> (r: JValue)
        ensures
            r@ == self.json(),
    {
        let mut fields: Vec<JField> = Vec::new();
        fields.push(sfield("name", &self.name));
        fields.push(sfield("value", &self.value));
        let ghost fs = fields@;
        let r = JValue::Obj(fields);
        proof {
            lemma_jfields_of(fs);
            assert(jfields_of(fs) =~= self.json()->Obj_0);
            assert(r@ =~= self.json());
        }
        r
    }
}

impl RequestCookie {
    /// An object with the cookie's name and value.
    pub open spec fn json(self) -> JModel {
        JModel::Obj(
            seq![("name"@, JModel::Str(self.name@)), ("value"@, JModel::Str(self.value@))],
        )
    }

    pub fn to_json(&self) -> (r: JValue)
        ensures
            r@ == self.json(),
    {
        let mut fields: Vec<JField> = Vec::new();
        fields.push(sfield("name", &self.name));
        fields.push(sfield("value", &self.value));
        let ghost fs = fields@;
        let r = JValue::Obj(fields);
        proof {
            lemma_jfields_of(fs);
            assert(jfields_of(fs) =~= self.json()->Obj_0);
            assert(r@ =~= self.json());
        }
        r
    }
}

/// The field a set string attribute contributes, or nothing.
pub open spec fn opt_str_field(key: Seq<char>, value: Option<String>) -> Seq<(Seq<char>, JModel)> {
    match value {
        Some(s) => seq![(key, JModel::Str(s@))],
        None => Seq::empty(),
    }
}

/// The field a set flag contributes, or nothing: a flag is rendered only when
/// true, never as false.
pub open spec fn flag_field(key: Seq<char>, value: bool) -> Seq<(Seq<char>, JModel)> {
    if value {
        seq![(key, JModel::Bool(true))]
    } else {
        Seq::empty()
    }
}

impl ResponseCookie {
    /// An object with the cookie's name and value, followed by exactly the
    /// attributes that are set, in a fixed order; the boolean flags appear
    /// only when true.
    pub open spec fn json(self) -> JModel {
        JModel::Obj(
            seq![("name"@, JModel::Str(self.name@)), ("value"@, JModel::Str(self.value@))]
                + opt_str_field("expires"@, self.expires) + (match self.max_age {
                Some(n) => seq![("max_age"@, JModel::Str(crate::num::dec_int(n as int)))],
                None => Seq::empty(),
            }) + opt_str_field("domain"@, self.domain) + opt_str_field("path"@, self.path)
                + flag_field("secure"@, self.secure) + flag_field("httponly"@, self.httponly)
                + opt_str_field("samesite"@, self.samesite),
        )
    }

    #[verifier::rlimit(100)]
    pub fn to_json(&self) -> (r: JValue)
        ensures
            r@ == self.json(),
    {
        let mut fields: Vec<JField> = Vec::new();
        fields.push(sfield("name", &self.name));
        fields.push(sfield("value", &self.value));
        if let Some(expires) = &self.expires {
            fields.push(sfield("expires", expires));
        }
        if let Some(max_age) = &self.max_age {
            fields.push(sfield_owned("max_age", i64_to_string(*max_age)));
        }
        if let Some(domain) = &self.domain {
            fields.push(sfield("domain", domain));
        }
        if let Some(path) = &self.path {
            fields.push(sfield("path", path));
        }
        if self.secure {
            fields.push(bfield("secure", true));
        }
        if self.httponly {
            fields.push(bfield("httponly", true));
        }
        if let Some(samesite) = &self.samesite {
            fields.push(sfield("samesite", samesite));
        }
        let ghost fs = fields@;
        let r = JValue::Obj(fields);
        proof {
            lemma_jfields_of(fs);
            assert(jfields_of(fs) =~= self.json()->Obj_0);
            assert(r@ =~= self.json());
        }
        r
    }
}

impl Certificate {
    /// An object with the certificate's subject, issuer, dates (rendered as
    /// strings) and serial number.
    pub open spec fn json(self) -> JModel {
        JModel::Obj(
            seq![
                ("subject"@, JModel::Str(self.subject@)),
                ("issue"@, JModel::Str(self.issuer@)),
                ("start_date"@, JModel::Str(utc_date_display(self.start_date.epoch_micros))),
                ("expire_date"@, JModel::Str(utc_date_display(self.expire_date.epoch_micros))),
                ("serial_number"@, JModel::Str(self.serial_number@)),
            ],
        )
    }

    pub fn to_json(&self) -> (r: JValue)
        requires
            self.wf(),
        ensures
            r@ == self.json(),
    {
        let mut fields: Vec<JField> = Vec::new();
        fields.push(sfield("subject", &self.subject));
        fields.push(sfield("issue", &self.issuer));
        fields.push(sfield_owned("start_date", self.start_date.to_date_string()));
        fields.push(sfield_owned("expire_date", self.expire_date.to_date_string()));
        fields.push(sfield("serial_number", &self.serial_number));
        let ghost fs = fields@;
        let r = JValue::Obj(fields);
        proof {
            lemma_jfields_of(fs);
            assert(jfields_of(fs) =~= self.json()->Obj_0);
            assert(r@ =~= self.json());
        }
        r
    }
}

impl Timings {
    /// An object with the two points in time rendered in RFC 3339 with
    /// microseconds, and the six durations as integer microsecond counts.
    pub open spec fn json(self) -> JModel {
        JModel::Obj(
            seq![
                ("begin_call"@, JModel::Str(rfc3339_utc_micros(self.begin_call.epoch_micros))),
                ("end_call"@, JModel::Str(rfc3339_utc_micros(self.end_call.epoch_micros))),
                ("name_lookup"@, JModel::Num(self.name_lookup)),
                ("connect"@, JModel::Num(self.connect)),
                ("app_connect"@, JModel::Num(self.app_connect)),
                ("pre_transfer"@, JModel::Num(self.pre_transfer)),
                ("start_transfer"@, JModel::Num(self.start_transfer)),
                ("total"@, JModel::Num(self.total)),
            ],
        )
    }

    pub fn to_json(&self) -> (r: JValue)
        requires
            self.wf(),
        ensures
            r@ == self.json(),
    {
        let mut fields: Vec<JField> = Vec::new();
        fields.push(sfield_owned("begin_call", self.begin_call.to_rfc3339_micros()));
        fields.push(sfield_owned("end_call", self.end_call.to_rfc3339_micros()));
        fields.push(nfield("name_lookup", self.name_lookup));
        fields.push(nfield("connect", self.connect));
        fields.push(nfield("app_connect", self.app_connect));
        fields.push(nfield("pre_transfer", self.pre_transfer));
        fields.push(nfield("start_transfer", self.start_transfer));
        fields.push(nfield("total", self.total));
        let ghost fs = fields@;
        let r = JValue::Obj(fields);
        proof {
            lemma_jfields_of(fs);
            assert(jfields_of(fs) =~= self.json()->Obj_0);
            assert(r@ =~= self.json());
        }
        r
    }
}

/// The serializations of the headers, in order.
pub open spec fn headers_json(s: Seq<Header>) -> Seq<JModel> {
    Seq::new(s.len(), |i: int| s[i].json())
}

/// Serializes the headers as an array.
fn headers_to_json(headers: &Vec<Header>) -> (r: JValue)
    ensures
        r@ == JModel::Arr(headers_json(headers@)),
{
    let mut out: Vec<JValue> = Vec::new();
    let mut i: usize = 0;
    #[verifier::loop_isolation(false)]
    while i < headers.len()
        invariant
            i <= headers@.len(),
            out@.len() == i,
            forall|j: int| 0 <= j < i ==> out@[j]@ == headers@[j].json(),
        decreases headers@.len() - i,
    {
        out.push(headers[i].to_json());
        i = i + 1;
    }
    let ghost items = out@;
    let r = JValue::Arr(out);
    proof {
        lemma_jmodels_of(items);
        assert(jmodels_of(items) =~= headers_json(headers@));
        assert(r@ =~= JModel::Arr(headers_json(headers@)));
    }
    r
}

impl Request {
    /// An object with the method, the url, and the headers, cookies and
    /// query-string parameters as arrays.
    pub open spec fn json(self) -> JModel {
        JModel::Obj(
            seq![
                ("method"@, JModel::Str(self.method@)),
                ("url"@, JModel::Str(self.url@)),
                ("headers"@, JModel::Arr(headers_json(self.headers@))),
                (
                    "cookies"@,
                    JModel::Arr(Seq::new(self.cookies@.len(), |i: int| self.cookies@[i].json())),
                ),
                (
                    "queryString"@,
                    JModel::Arr(
                        Seq::new(self.query_string@.len(), |i: int| self.query_string@[i].json()),
                    ),
                ),
            ],
        )
    }

    pub fn to_json(&self) -> (r: JValue)
        ensures
            r@ == self.json(),
    {
        let mut cookies: Vec<JValue> = Vec::new();
        let mut i: usize = 0;
        #[verifier::loop_isolation(false)]
        while i < self.cookies.len()
            invariant
                i <= self.cookies@.len(),
                cookies@.len() == i,
                forall|j: int| 0 <= j < i ==> cookies@[j]@ == self.cookies@[j].json(),
            decreases self.cookies@.len() - i,
        {
            cookies.push(self.cookies[i].to_json());
            i = i + 1;
        }
        let mut params: Vec<JValue> = Vec::new();
        let mut k: usize = 0;
        #[verifier::loop_isolation(false)]
        while k < self.query_string.len()
            invariant
                k <= self.query_string@.len(),
                params@.len() == k,
                forall|j: int| 0 <= j < k ==> params@[j]@ == self.query_string@[j].json(),
            decreases self.query_string@.len() - k,
        {
            params.push(self.query_string[k].to_json());
            k = k + 1;
        }
        let ghost cookie_items = cookies@;
        let ghost param_items = params@;
        let mut fields: Vec<JField> = Vec::new();
        fields.push(sfield("method", &self.method));
        fields.push(sfield("url", &self.url));
        fields.push(vfield("headers", headers_to_json(&self.headers)));
        fields.push(vfield("cookies", JValue::Arr(cookies)));
        fields.push(vfield("queryString", JValue::Arr(params)));
        let ghost fs = fields@;
        let r = JValue::Obj(fields);
        proof {
            lemma_jmodels_of(cookie_items);
            lemma_jmodels_of(param_items);
            assert(jmodels_of(cookie_items) =~= Seq::new(
                self.cookies@.len(),
                |i: int| self.cookies@[i].json(),
            ));
            assert(jmodels_of(param_items) =~= Seq::new(
                self.query_string@.len(),
                |i: int| self.query_string@[i].json(),
            ));
            lemma_jfields_of(fs);
            assert(jfields_of(fs) =~= self.json()->Obj_0);
            assert(r@ =~= self.json());
        }
        r
    }
}

impl Response {
    /// An object with the version, the status, the headers and cookies as
    /// arrays, and the certificate only when one is present.
    pub open spec fn json(self) -> JModel {
        JModel::Obj(
            seq![
                ("httpVersion"@, self.version.json()),
                ("status"@, JModel::Num(self.status)),
                ("headers"@, JModel::Arr(headers_json(self.headers@))),
                (
                    "cookies"@,
                    JModel::Arr(Seq::new(self.cookies@.len(), |i: int| self.cookies@[i].json())),
                ),
            ] + (match self.certificate {
                Some(c) => seq![("certificate"@, c.json())],
                None => Seq::empty(),
            }),
        )
    }

    pub fn to_json(&self) -> (r: JValue)
        requires
            self.wf(),
        ensures
            r@ == self.json(),
    {
        let mut cookies: Vec<JValue> = Vec::new();
        let mut i: usize = 0;
        #[verifier::loop_isolation(false)]
        while i < self.cookies.len()
            invariant
                i <= self.cookies@.len(),
                cookies@.len() == i,
                forall|j: int| 0 <= j < i ==> cookies@[j]@ == self.cookies@[j].json(),
            decreases self.cookies@.len() - i,
        {
            cookies.push(self.cookies[i].to_json());
            i = i + 1;
        }
        let ghost cookie_items = cookies@;
        let mut fields: Vec<JField> = Vec::new();
        fields.push(vfield("httpVersion", self.version.to_json()));
        fields.push(nfield("status", self.status));
        fields.push(vfield("headers", headers_to_json(&self.headers)));
        fields.push(vfield("cookies", JValue::Arr(cookies)));
        if let Some(certificate) = &self.certificate {
            fields.push(vfield("certificate", certificate.to_json()));
        }
        let ghost fs = fields@;
        let r = JValue::Obj(fields);
        proof {
            lemma_jmodels_of(cookie_items);
            assert(jmodels_of(cookie_items) =~= Seq::new(
                self.cookies@.len(),
                |i: int| self.cookies@[i].json(),
            ));
            lemma_jfields_of(fs);
            assert(jfields_of(fs) =~= self.json()->Obj_0);
            assert(r@ =~= self.json());
        }
        r
    }
}

impl Call {
    /// An object with the request, the response and the timings.
    pub open spec fn json(self) -> JModel {
        JModel::Obj(
            seq![
                ("request"@, self.request.json()),
                ("response"@, self.response.json()),
                ("timings"@, self.timings.json()),
            ],
        )
    }

    pub fn to_json(&self) -> (r: JValue)
        requires
            self.wf(),
        ensures
            r@ == self.json(),
    {
        let mut fields: Vec<JField> = Vec::new();
        fields.push(vfield("request", self.request.to_json()));
        fields.push(vfield("response", self.response.to_json()));
        fields.push(vfield("timings", self.timings.to_json()));
        let ghost fs = fields@;
        let r = JValue::Obj(fields);
        proof {
            lemma_jfields_of(fs);
            assert(jfields_of(fs) =~= self.json()->Obj_0);
            assert(r@ =~= self.json());
        }
        r
    }
}

impl CaptureResult {
    /// An object with the capture's name and its serialized value.
    pub open spec fn json(self) -> JModel {
        JModel::Obj(
            seq![("name"@, JModel::Str(self.name@)), ("value"@, Value::json(self.value@))],
        )
    }

    pub fn to_json(&self) -> (r: JValue)
        ensures
            r@ == self.json(),
    {
        let mut fields: Vec<JField> = Vec::new();
        fields.push(sfield("name", &self.name));
        fields.push(vfield("value", self.value.to_json()));
        let ghost fs = fields@;
        let r = JValue::Obj(fields);
        proof {
            lemma_jfields_of(fs);
            assert(jfields_of(fs) =~= self.json()->Obj_0);
            assert(r@ =~= self.json());
        }
        r
    }
}

impl Cookie {
    /// An object with all seven cookie fields, always present, as strings.
    pub open spec fn json(self) -> JModel {
        JModel::Obj(
            seq![
                ("domain"@, JModel::Str(self.domain@)),
                ("include_subdomain"@, JModel::Str(self.include_subdomain@)),
                ("path"@, JModel::Str(self.path@)),
                ("https"@, JModel::Str(self.https@)),
                ("expires"@, JModel::Str(self.expires@)),
                ("name"@, JModel::Str(self.name@)),
                ("value"@, JModel::Str(self.value@)),
            ],
        )
    }

    pub fn to_json(&self) -> (r: JValue)
        ensures
            r@ == self.json(),
    {
        let mut fields: Vec<JField> = Vec::new();
        fields.push(sfield("domain", &self.domain));
        fields.push(sfield("include_subdomain", &self.include_subdomain));
        fields.push(sfield("path", &self.path));
        fields.push(sfield("https", &self.https));
        fields.push(sfield("expires", &self.expires));
        fields.push(sfield("name", &self.name));
        fields.push(sfield("value", &self.value));
        let ghost fs = fields@;
        let r = JValue::Obj(fields);
        proof {
            lemma_jfields_of(fs);
            assert(jfields_of(fs) =~= self.json()->Obj_0);
            assert(r@ =~= self.json());
        }
        r
    }
}

/// The view of an optional diagnostic message.
pub open spec fn opt_message_view(m: &Option<String>) -> Option<Seq<char>> {
    match m {
        Some(s) => Some(s@),
        None => None,
    }
}

impl AssertResult {
    /// An object with the assertion's outcome and source line; the rendered
    /// diagnostic message is present exactly when the assertion failed.
    pub open spec fn json(self, message: Option<Seq<char>>) -> JModel {
        JModel::Obj(
            seq![("success"@, JModel::Bool(self.spec_error() is None))] + (match message {
                Some(m) => seq![("message"@, JModel::Str(m))],
                None => Seq::empty(),
            }) + seq![("line"@, JModel::Num(self.spec_line() as u64))],
        )
    }

    /// Serializes the assertion's outcome. The diagnostic message is rendered
    /// by a collaborator from the assertion's error and handed in; it must be
    /// present exactly when the assertion failed.
    pub fn to_json(&self, message: &Option<String>) -> (r: JValue)
        requires
            (message is Some) <==> (self.spec_error() is Some),
        ensures
            r@ == self.json(opt_message_view(message)),
    {
        let success = self.error().is_none();
        let mut fields: Vec<JField> = Vec::new();
        fields.push(bfield("success", success));
        if let Some(m) = message {
            fields.push(sfield("message", m));
        }
        fields.push(nfield("line", self.line() as u64));
        let ghost fs = fields@;
        let r = JValue::Obj(fields);
        proof {
            lemma_jfields_of(fs);
            assert(jfields_of(fs) =~= self.json(opt_message_view(message))->Obj_0);
            assert(r@ =~= self.json(opt_message_view(message)));
        }
        r
    }
}

/// The views of the optional diagnostic messages of one entry.
pub open spec fn messages_view(messages: Seq<Option<String>>) -> Seq<Option<Seq<char>>> {
    Seq::new(messages.len(), |i: int| opt_message_view(&messages[i]))
}

/// The messages line up with the asserts: one message per failed assertion,
/// none for a passed one.
pub open spec fn messages_match(asserts: Seq<AssertResult>, messages: Seq<Option<String>>) -> bool {
    &&& messages.len() == asserts.len()
    &&& forall|i: int|
        0 <= i < asserts.len() ==> ((messages[i] is Some) <==> ((
        #[trigger] asserts[i].spec_error()) is Some))
}

impl EntryResult {
    /// An object with the entry's index, its source line, the calls, captures
    /// and assertion outcomes as arrays, and the entry's duration in
    /// milliseconds.
    pub open spec fn json(self, messages: Seq<Option<Seq<char>>>) -> JModel {
        JModel::Obj(
            seq![
                ("index"@, JModel::Num(self.entry_index as u64)),
                ("line"@, JModel::Num(self.source_info.start.line as u64)),
                ("calls"@, JModel::Arr(Seq::new(self.calls@.len(), |i: int| self.calls@[i].json()))),
                (
                    "captures"@,
                    JModel::Arr(Seq::new(self.captures@.len(), |i: int| self.captures@[i].json())),
                ),
                (
                    "asserts"@,
                    JModel::Arr(
                        Seq::new(self.asserts@.len(), |i: int| self.asserts@[i].json(messages[i])),
                    ),
                ),
                ("time"@, JModel::Num(self.time_in_ms)),
            ],
        )
    }

    /// Serializes the entry's outcome, with one optional rendered diagnostic
    /// per assertion.
    pub fn to_json(&self, messages: &Vec<Option<String>>) -> (r: JValue)
        requires
            self.wf(),
            messages_match(self.asserts@, messages@),
        ensures
            r@ == self.json(messages_view(messages@)),
    {
        let mut calls: Vec<JValue> = Vec::new();
        let mut i: usize = 0;
        #[verifier::loop_isolation(false)]
        while i < self.calls.len()
            invariant
                i <= self.calls@.len(),
                calls@.len() == i,
                forall|j: int| 0 <= j < i ==> calls@[j]@ == self.calls@[j].json(),
            decreases self.calls@.len() - i,
        {
            calls.push(self.calls[i].to_json());
            i = i + 1;
        }
        let mut captures: Vec<JValue> = Vec::new();
        let mut k: usize = 0;
        #[verifier::loop_isolation(false)]
        while k < self.captures.len()
            invariant
                k <= self.captures@.len(),
                captures@.len() == k,
                forall|j: int| 0 <= j < k ==> captures@[j]@ == self.captures@[j].json(),
            decreases self.captures@.len() - k,
        {
            captures.push(self.captures[k].to_json());
            k = k + 1;
        }
        let mut asserts: Vec<JValue> = Vec::new();
        let mut m: usize = 0;
        #[verifier::loop_isolation(false)]
        while m < self.asserts.len()
            invariant
                m <= self.asserts@.len(),
                asserts@.len() == m,
                forall|j: int|
                    0 <= j < m ==> asserts@[j]@ == self.asserts@[j].json(
                        opt_message_view(&messages@[j]),
                    ),
            decreases self.asserts@.len() - m,
        {
            asserts.push(self.asserts[m].to_json(&messages[m]));
            m = m + 1;
        }
        let ghost call_items = calls@;
        let ghost capture_items = captures@;
        let ghost assert_items = asserts@;
        let mut fields: Vec<JField> = Vec::new();
        fields.push(nfield("index", self.entry_index as u64));
        fields.push(nfield("line", self.source_info.start.line as u64));
        fields.push(vfield("calls", JValue::Arr(calls)));
        fields.push(vfield("captures", JValue::Arr(captures)));
        fields.push(vfield("asserts", JValue::Arr(asserts)));
        fields.push(nfield("time", self.time_in_ms));
        let ghost fs = fields@;
        let r = JValue::Obj(fields);
        proof {
            lemma_jmodels_of(call_items);
            lemma_jmodels_of(capture_items);
            lemma_jmodels_of(assert_items);
            assert(jmodels_of(call_items) =~= Seq::new(
                self.calls@.len(),
                |i: int| self.calls@[i].json(),
            ));
            assert(jmodels_of(capture_items) =~= Seq::new(
                self.captures@.len(),
                |i: int| self.captures@[i].json(),
            ));
            assert(jmodels_of(assert_items) =~= Seq::new(
                self.asserts@.len(),
                |i: int| self.asserts@[i].json(messages_view(messages@)[i]),
            ));
            lemma_jfields_of(fs);
            assert(jfields_of(fs) =~= self.json(messages_view(messages@))->Obj_0);
            assert(r@ =~= self.json(messages_view(messages@)));
        }
        r
    }
}

/// Every entry's messages line up with its asserts.
pub open spec fn all_messages_match(
    entries: Seq<EntryResult>,
    messages: Seq<Vec<Option<String>>>,
) -> bool {
    &&& messages.len() == entries.len()
    &&& forall|i: int|
        0 <= i < entries.len() ==> messages_match(
            (#[trigger] entries[i]).asserts@,
            messages[i]@,
        )
}

impl HurlResult {
    /// The whole run as an object: the file name, the entries' outcomes, the
    /// caller-supplied success flag, the run's duration in milliseconds, and
    /// the cookie jar.
    pub open spec fn json(self, filename: Seq<char>, messages: Seq<Vec<Option<String>>>) -> JModel {
        JModel::Obj(
            seq![
                ("filename"@, JModel::Str(filename)),
                (
                    "entries"@,
                    JModel::Arr(
                        Seq::new(
                            self.entries@.len(),
                            |i: int| self.entries@[i].json(messages_view(messages[i]@)),
                        ),
                    ),
                ),
                ("success"@, JModel::Bool(self.success)),
                ("time"@, JModel::Num(self.time_in_ms)),
                (
                    "cookies"@,
                    JModel::Arr(Seq::new(self.cookies@.len(), |i: int| self.cookies@[i].json())),
                ),
            ],
        )
    }

    /// Serializes the whole run record, with one optional rendered diagnostic
    /// per assertion of each entry.
    pub fn to_json(&self, filename: &String, messages: &Vec<Vec<Option<String>>>) -> (r: JValue)
        requires
            self.wf(),
            all_messages_match(self.entries@, messages@),
        ensures
            r@ == self.json(filename@, messages@),
    {
        let mut entries: Vec<JValue> = Vec::new();
        let mut i: usize = 0;
        #[verifier::loop_isolation(false)]
        while i < self.entries.len()
            invariant
                i <= self.entries@.len(),
                entries@.len() == i,
                forall|j: int|
                    0 <= j < i ==> entries@[j]@ == self.entries@[j].json(
                        messages_view(messages@[j]@),
                    ),
            decreases self.entries@.len() - i,
        {
            entries.push(self.entries[i].to_json(&messages[i]));
            i = i + 1;
        }
        let mut cookies: Vec<JValue> = Vec::new();
        let mut k: usize = 0;
        #[verifier::loop_isolation(false)]
        while k < self.cookies.len()
            invariant
                k <= self.cookies@.len(),
                cookies@.len() == k,
                forall|j: int| 0 <= j < k ==> cookies@[j]@ == self.cookies@[j].json(),
            decreases self.cookies@.len() - k,
        {
            cookies.push(self.cookies[k].to_json());
            k = k + 1;
        }
        let ghost entry_items = entries@;
        let ghost cookie_items = cookies@;
        let mut fields: Vec<JField> = Vec::new();
        fields.push(sfield("filename", filename));
        fields.push(vfield("entries", JValue::Arr(entries)));
        fields.push(bfield("success", self.success));
        fields.push(nfield("time", self.time_in_ms));
        fields.push(vfield("cookies", JValue::Arr(cookies)));
        let ghost fs = fields@;
        let r = JValue::Obj(fields);
        proof {
            lemma_jmodels_of(entry_items);
            lemma_jmodels_of(cookie_items);
            assert(jmodels_of(entry_items) =~= Seq::new(
                self.entries@.len(),
                |i: int| self.entries@[i].json(messages_view(messages@[i]@)),
            ));
            assert(jmodels_of(cookie_items) =~= Seq::new(
                self.cookies@.len(),
                |i: int| self.cookies@[i].json(),
            ));
            lemma_jfields_of(fs);
            assert(jfields_of(fs) =~= self.json(filename@, messages@)->Obj_0);
            assert(r@ =~= self.json(filename@, messages@));
        }
        r
    }
}

} // verus!
