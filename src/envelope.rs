//! The request and response envelopes, to and from JSON values.
use vstd::prelude::*;
use crate::json::{Json, first_field};

verus! {

/// A request: the method to run, its parameters, and advisory settings that
/// no method reads.
#[derive(Debug, PartialEq)]
pub struct Request {
    pub method: String,
    pub params: Json,
    pub settings: Option<Vec<(String, Json)>>,
}

/// What decoding `value` as a request gives: the request, or why it is not one.
/// Of members that share a name, the first counts; unknown members are ignored.
pub open spec fn request_of(value: Json) -> Result<Request, Seq<char>> {
    match value {
        Json::Object(fields) => {
            let m = first_field(fields@, "method"@);
            let p = first_field(fields@, "params"@);
            let s = first_field(fields@, "settings"@);
            if m is None {
                Err("missing field `method`"@)
            } else if !(m->0 is Str) {
                Err("field `method` is not a string"@)
            } else if p is None {
                Err("missing field `params`"@)
            } else if s is Some && !(s->0 is Object) {
                Err("field `settings` is not an object"@)
            } else {
                Ok(Request {
                    method: m->0->Str_0,
                    params: p->0,
                    settings: match s {
                        Some(Json::Object(f)) => Some(f),
                        _ => None,
                    },
                })
            }
        },
        _ => Err("a request must be an object"@),
    }
}

/// `r` agrees with the spec outcome `s`, a message compared by its characters.
pub open spec fn same_outcome<T>(r: Result<T, String>, s: Result<T, Seq<char>>) -> bool {
    match (r, s) {
        (Ok(a), Ok(b)) => a == b,
        (Err(e), Err(m)) => e@ == m,
        _ => false,
    }
}

proof fn lemma_literals_differ()
    ensures
        "method"@ != "params"@,
        "method"@ != "settings"@,
        "params"@ != "settings"@,
{
    reveal_strlit("method");
    reveal_strlit("params");
    reveal_strlit("settings");
    assert("method"@[0] != "params"@[0]);
}

/// Whether the member name `k` is `name`.
pub fn is_named(k: &String, name: &str) -> (r: bool)
    ensures
        r == (k@ == name@),
{
    let n = String::from_str(name);
    k.eq(&n)
}

/// Decodes a request envelope from a JSON value.
pub fn decode_request(value: Json) -> (r: Result<Request, String>)
    ensures
        same_outcome(r, request_of(value)),
{
    let ghost v = value;
    match value {
        Json::Object(mut fields) => {
            let ghost all = fields@;
            let mut method: Option<Json> = None;
            let mut params: Option<Json> = None;
            let mut settings: Option<Json> = None;
            proof {
                lemma_literals_differ();
                assert(all.subrange(all.len() as int, all.len() as int).len() == 0);
            }
            while fields.len() > 0
                invariant
                    fields@ == all.subrange(0, fields.len() as int),
                    fields.len() <= all.len(),
                    "method"@ != "params"@,
                    "method"@ != "settings"@,
                    "params"@ != "settings"@,
                    method == first_field(all.subrange(fields.len() as int, all.len() as int), "method"@),
                    params == first_field(all.subrange(fields.len() as int, all.len() as int), "params"@),
                    settings == first_field(all.subrange(fields.len() as int, all.len() as int), "settings"@),
                decreases fields.len(),
            {
                let ghost n = fields.len() as int;
                let ghost tail = all.subrange(n, all.len() as int);
                let (k, x) = fields.pop().unwrap();
                let ghost grown = all.subrange(n - 1, all.len() as int);
                assert(grown.drop_first() =~= tail);
                assert(grown[0] == (k, x));
                if is_named(&k, "method") {
                    method = Some(x);
                } else if is_named(&k, "params") {
                    params = Some(x);
                } else if is_named(&k, "settings") {
                    settings = Some(x);
                }
                assert(fields@ =~= all.subrange(0, fields.len() as int));
            }
            assert(all.subrange(0, all.len() as int) =~= all);
            match method {
                None => Err(String::from_str("missing field `method`")),
                Some(Json::Str(name)) => match params {
                    None => Err(String::from_str("missing field `params`")),
                    Some(p) => match settings {
                        None => Ok(Request { method: name, params: p, settings: None }),
                        Some(Json::Object(f)) => Ok(Request { method: name, params: p, settings: Some(f) }),
                        Some(_) => Err(String::from_str("field `settings` is not an object")),
                    },
                },
                Some(_) => Err(String::from_str("field `method` is not a string")),
            }
        },
        _ => Err(String::from_str("a request must be an object")),
    }
}

/// `value` is the JSON form of `req`: `method`, `params`, then `settings`
/// when there are any.
pub open spec fn request_json(req: Request, value: Json) -> bool {
    match value {
        Json::Object(f) => {
            &&& f@.len() == if req.settings is Some { 3int } else { 2int }
            &&& f@[0].0@ == "method"@
            &&& f@[0].1 == Json::Str(req.method)
            &&& f@[1].0@ == "params"@
            &&& f@[1].1 == req.params
            &&& req.settings is Some ==> f@[2].0@ == "settings"@ && f@[2].1 == Json::Object(
                req.settings->0,
            )
        },
        _ => false,
    }
}

/// Encodes a request envelope as a JSON value.
pub fn encode_request(req: Request) -> (r: Json)
    ensures
        request_json(req, r),
{
    let mut f: Vec<(String, Json)> = Vec::new();
    f.push((String::from_str("method"), Json::Str(req.method)));
    f.push((String::from_str("params"), req.params));
    match req.settings {
        Some(s) => f.push((String::from_str("settings"), Json::Object(s))),
        None => {},
    }
    Json::Object(f)
}

/// Decoding the JSON form of a request gives back that request.
pub proof fn lemma_request_round_trip(req: Request, value: Json)
    requires
        request_json(req, value),
    ensures
        request_of(value) == Ok::<Request, Seq<char>>(req),
{
    lemma_literals_differ();
    reveal_with_fuel(first_field, 4);
    let f = value->Object_0@;
    assert(f.drop_first().drop_first().len() == f.len() - 2);
}

/// The outcome of a call: a method's result, or an error message.
#[derive(Debug, PartialEq)]
pub enum Reply {
    Sum(i32),
    SystemInfo { os: String, arch: String, plugin_version: String },
    Error(String),
}

/// A reply with its texts as character sequences.
pub enum ReplyView {
    Sum(i32),
    SystemInfo { os: Seq<char>, arch: Seq<char>, plugin_version: Seq<char> },
    Error(Seq<char>),
}

impl View for Reply {
    type V = ReplyView;

    open spec fn view(&self) -> ReplyView {
        match self {
            Reply::Sum(n) => ReplyView::Sum(*n),
            Reply::SystemInfo { os, arch, plugin_version } => ReplyView::SystemInfo {
                os: os@,
                arch: arch@,
                plugin_version: plugin_version@,
            },
            Reply::Error(m) => ReplyView::Error(m@),
        }
    }
}

/// `value` is the JSON form of `reply`: an object whose members are the
/// result's fields, or a single `error` member.
pub open spec fn reply_json(reply: Reply, value: Json) -> bool {
    match value {
        Json::Object(f) => match reply {
            Reply::Sum(n) => f@.len() == 1 && f@[0].0@ == "sum"@ && f@[0].1 == Json::Int(n as i64),
            Reply::SystemInfo { os, arch, plugin_version } => {
                &&& f@.len() == 3
                &&& f@[0].0@ == "os"@ && f@[0].1 == Json::Str(os)
                &&& f@[1].0@ == "arch"@ && f@[1].1 == Json::Str(arch)
                &&& f@[2].0@ == "plugin_version"@ && f@[2].1 == Json::Str(plugin_version)
            },
            Reply::Error(m) => f@.len() == 1 && f@[0].0@ == "error"@ && f@[0].1 == Json::Str(m),
        },
        _ => false,
    }
}

/// Encodes a reply envelope as a JSON value.
pub fn encode_reply(reply: Reply) -> (r: Json)
    ensures
        reply_json(reply, r),
{
    let mut f: Vec<(String, Json)> = Vec::new();
    match reply {
        Reply::Sum(n) => f.push((String::from_str("sum"), Json::Int(n as i64))),
        Reply::SystemInfo { os, arch, plugin_version } => {
            f.push((String::from_str("os"), Json::Str(os)));
            f.push((String::from_str("arch"), Json::Str(arch)));
            f.push((String::from_str("plugin_version"), Json::Str(plugin_version)));
        },
        Reply::Error(m) => f.push((String::from_str("error"), Json::Str(m))),
    }
    Json::Object(f)
}

/// What a host reads back from a reply value: an `error` member marks a
/// failure; otherwise the result's fields give the reply.
pub open spec fn reply_of(value: Json) -> Option<Reply> {
    match value {
        Json::Object(f) => {
            let e = first_field(f@, "error"@);
            let s = first_field(f@, "sum"@);
            let os = first_field(f@, "os"@);
            let arch = first_field(f@, "arch"@);
            let v = first_field(f@, "plugin_version"@);
            if e is Some {
                if e->0 is Str { Some(Reply::Error(e->0->Str_0)) } else { None }
            } else if s is Some {
                match s->0 {
                    Json::Int(n) => if i32::MIN <= n <= i32::MAX { Some(Reply::Sum(n as i32)) } else { None },
                    _ => None,
                }
            } else if os is Some && os->0 is Str && arch is Some && arch->0 is Str && v is Some
                && v->0 is Str {
                Some(Reply::SystemInfo { os: os->0->Str_0, arch: arch->0->Str_0, plugin_version: v->0->Str_0 })
            } else {
                None
            }
        },
        _ => None,
    }
}

proof fn lemma_reply_names_differ()
    ensures
        "error"@ != "sum"@,
        "error"@ != "os"@,
        "error"@ != "arch"@,
        "error"@ != "plugin_version"@,
        "sum"@ != "os"@,
        "sum"@ != "arch"@,
        "sum"@ != "plugin_version"@,
        "os"@ != "arch"@,
        "os"@ != "plugin_version"@,
        "arch"@ != "plugin_version"@,
{
    reveal_strlit("error");
    reveal_strlit("sum");
    reveal_strlit("os");
    reveal_strlit("arch");
    reveal_strlit("plugin_version");
    assert("os"@[0] != "plugin_version"@[0]);
    assert("error"@[0] != "os"@[0]);
    assert("error"@[0] != "arch"@[0]);
}

/// Reading back the JSON form of a reply gives that reply.
pub proof fn lemma_reply_round_trip(reply: Reply, value: Json)
    requires
        reply_json(reply, value),
    ensures
        reply_of(value) == Some(reply),
{
    lemma_reply_names_differ();
    reveal_with_fuel(first_field, 4);
    let f = value->Object_0@;
    if f.len() == 3 {
        assert(f.drop_first().drop_first().drop_first().len() == 0);
    } else {
        assert(f.drop_first().len() == 0);
    }
}

} // verus!
