//! The method table, the handlers, and the path from payload text to
//! response text.
use vstd::prelude::*;
use crate::json::{Json, first_field, parse_outcome, text_of, parse_json, encode_json};
use crate::envelope::{Request, Reply, ReplyView, request_of, reply_json, decode_request, encode_reply, is_named};

verus! {

/// Version reported by the system-information method.
pub open spec fn plugin_version() -> Seq<char> {
    "1.0.0"@
}

/// The methods the plugin offers.
#[derive(Debug, PartialEq)]
pub enum Method {
    Add,
    GetSystemInfo,
}

/// The method that the identifier `name` selects, if any.
pub open spec fn method_named(name: Seq<char>) -> Option<Method> {
    if name == "add"@ {
        Some(Method::Add)
    } else if name == "getSystemInfo"@ {
        Some(Method::GetSystemInfo)
    } else {
        None
    }
}

/// Looks up a method by its identifier.
pub fn lookup_method(name: &String) -> (r: Option<Method>)
    ensures
        r == method_named(name@),
{
    if is_named(name, "add") {
        Some(Method::Add)
    } else if is_named(name, "getSystemInfo") {
        Some(Method::GetSystemInfo)
    } else {
        None
    }
}

/// Parameters of `add`.
#[derive(Debug, PartialEq)]
pub struct AddParams {
    pub a: i32,
    pub b: i32,
}

/// Whether `v` is a JSON integer that fits an `i32`.
pub open spec fn is_i32(v: Json) -> bool {
    v matches Json::Int(n) && i32::MIN <= n <= i32::MAX
}

/// What decoding `value` as the parameters of `add` gives. Both members are
/// required and must be 32-bit integers; other members are ignored.
pub open spec fn add_params_of(value: Json) -> Result<AddParams, Seq<char>> {
    match value {
        Json::Object(fields) => {
            let a = first_field(fields@, "a"@);
            let b = first_field(fields@, "b"@);
            if a is None {
                Err("missing field `a`"@)
            } else if !is_i32(a->0) {
                Err("field `a` is not a 32-bit integer"@)
            } else if b is None {
                Err("missing field `b`"@)
            } else if !is_i32(b->0) {
                Err("field `b` is not a 32-bit integer"@)
            } else {
                Ok(AddParams { a: a->0->Int_0 as i32, b: b->0->Int_0 as i32 })
            }
        },
        _ => Err("expected an object with members `a` and `b`"@),
    }
}

/// Finds the first member of `fields` named `key`.
pub fn find_field<'a>(fields: &'a Vec<(String, Json)>, key: &str) -> (r: Option<&'a Json>)
    ensures
        match r {
            Some(v) => first_field(fields@, key@) == Some(*v),
            None => first_field(fields@, key@) is None,
        },
{
    let mut i: usize = 0;
    assert(fields@.subrange(0, fields@.len() as int) =~= fields@);
    while i < fields.len()
        invariant
            i <= fields.len(),
            first_field(fields@, key@) == first_field(
                fields@.subrange(i as int, fields@.len() as int),
                key@,
            ),
        decreases fields.len() - i,
    {
        let ghost rest = fields@.subrange(i as int, fields@.len() as int);
        assert(rest.drop_first() =~= fields@.subrange(i + 1, fields@.len() as int));
        if is_named(&fields[i].0, key) {
            return Some(&fields[i].1);
        }
        i = i + 1;
    }
    None
}

/// Reads a member that must be a 32-bit integer.
fn int_field(fields: &Vec<(String, Json)>, key: &str) -> (r: Result<i32, String>)
    ensures
        match first_field(fields@, key@) {
            None => r matches Err(e) && e@ == "missing field `"@ + key@ + "`"@,
            Some(v) => if is_i32(v) {
                r == Ok::<i32, String>(v->Int_0 as i32)
            } else {
                r matches Err(e) && e@ == "field `"@ + key@ + "` is not a 32-bit integer"@
            },
        },
{
    match find_field(fields, key) {
        None => {
            let mut e = String::from_str("missing field `");
            e.append(key);
            e.append("`");
            Err(e)
        },
        Some(Json::Int(n)) if i32::MIN as i64 <= *n && *n <= i32::MAX as i64 => Ok(*n as i32),
        Some(_) => {
            let mut e = String::from_str("field `");
            e.append(key);
            e.append("` is not a 32-bit integer");
            Err(e)
        },
    }
}

/// Decodes the parameters of `add`.
pub fn decode_add_params(value: &Json) -> (r: Result<AddParams, String>)
    ensures
        match (r, add_params_of(*value)) {
            (Ok(p), Ok(q)) => p == q,
            (Err(e), Err(m)) => e@ == m,
            _ => false,
        },
{
    proof {
        reveal_strlit("a");
        reveal_strlit("`");
        reveal_strlit("missing field `a`");
        reveal_strlit("missing field `b`");
        reveal_strlit("field `");
        reveal_strlit("missing field `");
        reveal_strlit("` is not a 32-bit integer");
        reveal_strlit("field `a` is not a 32-bit integer");
        reveal_strlit("field `b` is not a 32-bit integer");
        reveal_strlit("b");
    }
    match value {
        Json::Object(fields) => {
            let a = int_field(fields, "a");
            match a {
                Err(e) => {
                    assert(e@ =~= if first_field(fields@, "a"@) is None {
                        "missing field `a`"@
                    } else {
                        "field `a` is not a 32-bit integer"@
                    });
                    Err(e)
                },
                Ok(a) => {
                    let b = int_field(fields, "b");
                    match b {
                        Err(e) => {
                            assert(e@ =~= if first_field(fields@, "b"@) is None {
                                "missing field `b`"@
                            } else {
                                "field `b` is not a 32-bit integer"@
                            });
                            Err(e)
                        },
                        Ok(b) => Ok(AddParams { a, b }),
                    }
                },
            }
        },
        _ => Err(String::from_str("expected an object with members `a` and `b`")),
    }
}

/// `a + b` wrapped into the range of `i32`, as fixed-width signed
/// arithmetic does.
pub open spec fn wrapped_sum(a: i32, b: i32) -> i32 {
    let s = a + b;
    if s > i32::MAX {
        (s - 0x1_0000_0000) as i32
    } else if s < i32::MIN {
        (s + 0x1_0000_0000) as i32
    } else {
        s as i32
    }
}

/// The `add` handler: the sum of the two parameters, wrapping on overflow.
pub fn handle_add(p: &AddParams) -> (r: i32)
    ensures
        r == wrapped_sum(p.a, p.b),
{
    let s: i64 = p.a as i64 + p.b as i64;
    if s > i32::MAX as i64 {
        (s - 0x1_0000_0000) as i32
    } else if s < i32::MIN as i64 {
        (s + 0x1_0000_0000) as i32
    } else {
        s as i32
    }
}

/// The reply to a decoded request, on a platform named by `os` and `arch`.
pub open spec fn answer_request(req: Request, os: Seq<char>, arch: Seq<char>) -> ReplyView {
    match method_named(req.method@) {
        None => ReplyView::Error("Method '"@ + req.method@ + "' not found"@),
        Some(Method::Add) => match add_params_of(req.params) {
            Ok(p) => ReplyView::Sum(wrapped_sum(p.a, p.b)),
            Err(m) => ReplyView::Error("Invalid params for add: "@ + m),
        },
        Some(Method::GetSystemInfo) => ReplyView::SystemInfo { os, arch, plugin_version: plugin_version() },
    }
}

/// The reply to a payload that parsed to `parsed`.
pub open spec fn answer(parsed: Result<Json, Seq<char>>, os: Seq<char>, arch: Seq<char>) -> ReplyView {
    match parsed {
        Err(e) => ReplyView::Error("Invalid input format: "@ + e),
        Ok(v) => match request_of(v) {
            Err(m) => ReplyView::Error("Invalid input format: "@ + m),
            Ok(req) => answer_request(req, os, arch),
        },
    }
}

/// A parse outcome with its message as characters.
pub open spec fn outcome_view(parsed: Result<Json, String>) -> Result<Json, Seq<char>> {
    match parsed {
        Ok(v) => Ok(v),
        Err(e) => Err(e@),
    }
}

/// Runs the method that a decoded request names.
pub fn dispatch(req: &Request, os: &str, arch: &str) -> (r: Reply)
    ensures
        r@ == answer_request(*req, os@, arch@),
{
    match lookup_method(&req.method) {
        None => {
            let mut m = String::from_str("Method '");
            m.append(req.method.as_str());
            m.append("' not found");
            Reply::Error(m)
        },
        Some(Method::Add) => match decode_add_params(&req.params) {
            Ok(p) => Reply::Sum(handle_add(&p)),
            Err(e) => {
                let mut m = String::from_str("Invalid params for add: ");
                m.append(e.as_str());
                Reply::Error(m)
            },
        },
        Some(Method::GetSystemInfo) => Reply::SystemInfo {
            os: String::from_str(os),
            arch: String::from_str(arch),
            plugin_version: String::from_str("1.0.0"),
        },
    }
}

/// Replies to a payload that parsed to `parsed`.
pub fn respond(parsed: Result<Json, String>, os: &str, arch: &str) -> (r: Reply)
    ensures
        r@ == answer(outcome_view(parsed), os@, arch@),
{
    match parsed {
        Err(e) => {
            let mut m = String::from_str("Invalid input format: ");
            m.append(e.as_str());
            Reply::Error(m)
        },
        Ok(v) => match decode_request(v) {
            Err(e) => {
                let mut m = String::from_str("Invalid input format: ");
                m.append(e.as_str());
                Reply::Error(m)
            },
            Ok(req) => dispatch(&req, os, arch),
        },
    }
}

/// Answers the JSON request text `payload`, on a platform named by `os` and
/// `arch`, with JSON response text. Every failure becomes an error reply.
pub fn handle(payload: &str, os: &str, arch: &str) -> (r: String)
    ensures
        exists|rep: Reply, v: Json|
            rep@ == answer(parse_outcome(payload@), os@, arch@) && reply_json(rep, v) && r@
                == text_of(v),
{
    let parsed = parse_json(payload);
    assert(outcome_view(parsed) == parse_outcome(payload@));
    let rep = respond(parsed, os, arch);
    let v = encode_reply(rep);
    encode_json(&v)
}

/// An `add` request whose sum fits an `i32` is answered with that sum.
pub proof fn lemma_add_answers_sum(v: Json, os: Seq<char>, arch: Seq<char>)
    requires
        request_of(v) is Ok,
        request_of(v)->Ok_0.method@ == "add"@,
        add_params_of(request_of(v)->Ok_0.params) is Ok,
        i32::MIN <= add_params_of(request_of(v)->Ok_0.params)->Ok_0.a + add_params_of(
            request_of(v)->Ok_0.params,
        )->Ok_0.b <= i32::MAX,
    ensures
        answer(Ok(v), os, arch) == ReplyView::Sum(
            (add_params_of(request_of(v)->Ok_0.params)->Ok_0.a + add_params_of(
                request_of(v)->Ok_0.params,
            )->Ok_0.b) as i32,
        ),
{
}

/// A request for a method outside the table is answered with an error that
/// repeats the identifier exactly.
pub proof fn lemma_unknown_method_echoed(v: Json, os: Seq<char>, arch: Seq<char>)
    requires
        request_of(v) is Ok,
        method_named(request_of(v)->Ok_0.method@) is None,
    ensures
        answer(Ok(v), os, arch) == ReplyView::Error(
            "Method '"@ + request_of(v)->Ok_0.method@ + "' not found"@,
        ),
{
}

/// Decoding failures of `add`'s parameters are answered with an error naming
/// the method, never with a sum.
pub proof fn lemma_bad_add_params_reported(v: Json, os: Seq<char>, arch: Seq<char>)
    requires
        request_of(v) is Ok,
        request_of(v)->Ok_0.method@ == "add"@,
        add_params_of(request_of(v)->Ok_0.params) is Err,
    ensures
        answer(Ok(v), os, arch) == ReplyView::Error(
            "Invalid params for add: "@ + add_params_of(request_of(v)->Ok_0.params)->Err_0,
        ),
{
}

} // verus!
