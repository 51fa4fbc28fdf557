//! What holds of cookies, requests, scripts and replies as a whole, in terms of what goes in and
//! what comes out.

use crate::error::{reports, Error};
use crate::sys::host::cookie::cookie_after;
use crate::sys::host::reply::{
    member_flag, member_text, member_unsigned, members_by_name, mode_verdict, parsed_view,
    size_verdict, succeeded, Document, Member, MemberView,
};
use crate::sys::host::request::{
    reply_file, request_directory, request_file, EvalRequest, FALLBACK_DIRECTORY, PRIMARY_DIRECTORY,
};
use crate::sys::host::scripts::{mode_script, GET_SIZE};
use crate::text::decimal;
use vstd::prelude::*;

verus! {

/// Cookies go up by one, and start over at zero after the greatest.
pub proof fn cookies_go_up_by_one(cookie: u32)
    ensures
        cookie < 0xffff_ffff ==> cookie_after(cookie) == cookie + 1,
        cookie == 0xffff_ffff ==> cookie_after(cookie) == 0,
{
}

/// A request goes to the host's own directory where that can be used and to the one below the
/// working directory where it cannot; its file is named by the cookie in decimal and holds the
/// script; and the reply is expected beside it, under the same number.
pub proof fn requests_are_files(
    request: EvalRequest,
    primary: bool,
    cookie: u32,
    script: Seq<char>,
)
    ensures
        request.asks(primary, cookie, script) ==> {
            &&& primary ==> request.directory@ == "/dev/host/eval"@
            &&& !primary ==> request.directory@ == "./dev/host/eval"@
            &&& request.file@ == decimal(cookie as nat) + ".js"@
            &&& request.script@ == script
        },
        request_directory(true) == "/dev/host/eval"@,
        request_directory(false) == "./dev/host/eval"@,
        PRIMARY_DIRECTORY@ == "/dev/host/eval"@,
        FALLBACK_DIRECTORY@ == "./dev/host/eval"@,
        request_file(cookie) == decimal(cookie as nat) + ".js"@,
        reply_file(cookie) == decimal(cookie as nat) + ".json"@,
{
}

/// Line input is switched by one of two scripts that differ in the one flag that they hand to the
/// host, and the size is asked for by a third.
pub proof fn scripts_are_sent_verbatim(line_input: bool)
    ensures
        line_input ==> mode_script(line_input)
            == r#"(function(){try{if(process.stdin && typeof process.stdin.setRawMode==='function'){process.stdin.setRawMode(false);return JSON.stringify({ok:true});}else{return JSON.stringify({ok:false,err:'setRawMode not supported'});} }catch(e){return JSON.stringify({ok:false,err:String(e)});} })();"#@,
        !line_input ==> mode_script(line_input)
            == r#"(function(){try{if(process.stdin && typeof process.stdin.setRawMode==='function'){process.stdin.setRawMode(true);return JSON.stringify({ok:true});}else{return JSON.stringify({ok:false,err:'setRawMode not supported'});} }catch(e){return JSON.stringify({ok:false,err:String(e)});} })();"#@,
        GET_SIZE@
            == r#"(function(){try{const cols=process.stdout.columns||80;const rows=process.stdout.rows||24;return JSON.stringify({ok:true,cols,rows});}catch(e){return JSON.stringify({ok:false,err:String(e)});} })();"#@,
{
}

/// An operation that is said to report a value gives that value, and one that is said to report a
/// message gives an input or output error with exactly that message.
pub proof fn reports_are_exact<T>(
    result: Result<T, Error>,
    expected: Result<T, Seq<char>>,
    value: T,
    text: Seq<char>,
)
    requires
        reports(result, expected),
    ensures
        expected == Ok::<T, Seq<char>>(value) ==> result == Ok::<T, Error>(value),
        expected == Err::<T, Seq<char>>(text) ==> result is Err && result->Err_0.kind is IoError
            && result->Err_0.kind->IoError_0@ == text,
        result is Ok <==> expected is Ok,
{
}

/// A parsed document is what was parsed: its members, or the message.
pub proof fn parsing_is_passed_on(document: Document, message: String)
    ensures
        parsed_view(Ok(document)) == Ok::<Map<Seq<char>, MemberView>, Seq<char>>(document@),
        parsed_view(Err(message)) == Err::<Map<Seq<char>, MemberView>, Seq<char>>(message@),
{
}

proof fn named_members(list: Seq<(String, Member)>, name: Seq<char>)
    ensures
        members_by_name(list).contains_key(name) <==> exists|j: int|
            0 <= j < list.len() && (#[trigger] list[j]).0@ == name,
    decreases list.len(),
{
    if list.len() > 0 {
        let others = list.drop_last();
        let last = list.len() - 1;
        named_members(others, name);
        if members_by_name(list).contains_key(name) && list[last].0@ != name {
            let j = choose|j: int| 0 <= j < others.len() && (#[trigger] others[j]).0@ == name;
            assert(list[j].0@ == name);
        }
        if exists|j: int| 0 <= j < list.len() && (#[trigger] list[j]).0@ == name {
            let j = choose|j: int| 0 <= j < list.len() && (#[trigger] list[j]).0@ == name;
            if j < last {
                assert(others[j].0@ == name);
            }
        }
    }
}

proof fn last_named_member(list: Seq<(String, Member)>, name: Seq<char>, i: int)
    requires
        0 <= i < list.len(),
        list[i].0@ == name,
        forall|j: int| i < j < list.len() ==> (#[trigger] list[j]).0@ != name,
    ensures
        members_by_name(list).contains_key(name),
        members_by_name(list)[name] == list[i].1@,
    decreases list.len(),
{
    let others = list.drop_last();
    if i < list.len() - 1 {
        assert(list[list.len() - 1].0@ != name);
        assert forall|j: int| i < j < others.len() implies (#[trigger] others[j]).0@ != name by {
            assert(list[j].0@ != name);
        }
        last_named_member(others, name, i);
    }
}

/// A document has a member of some name exactly if one is listed under it, and of several the one
/// that is listed last; a document that is no object has none.
pub proof fn documents_hold_what_is_listed(
    document: Document,
    list: Vec<(String, Member)>,
    name: Seq<char>,
    i: int,
)
    ensures
        document.members is None ==> !document@.contains_key(name),
        document.members == Some(list) ==> (document@.contains_key(name) <==> exists|j: int|
            0 <= j < list@.len() && (#[trigger] list@[j]).0@ == name),
        document.members == Some(list) && 0 <= i < list@.len() && list@[i].0@ == name && (forall|
            j: int,
        |
            i < j < list@.len() ==> (#[trigger] list@[j]).0@ != name) ==> document@[name]
            == list@[i].1@,
{
    named_members(list@, name);
    if 0 <= i < list@.len() && list@[i].0@ == name && (forall|j: int|
        i < j < list@.len() ==> (#[trigger] list@[j]).0@ != name) {
        last_named_member(list@, name, i);
    }
}

/// No two values of a member look alike.
pub proof fn members_are_told_apart(flag: bool, number: Option<u64>, text: String)
    ensures
        Member::Null@ == MemberView::Null,
        Member::Flag(flag)@ == MemberView::Flag(flag),
        Member::Number(number)@ == MemberView::Number(number),
        Member::Text(text)@ == MemberView::Text(text@),
        Member::Array@ == MemberView::Array,
        Member::Object@ == MemberView::Object,
{
}

/// A truth value, an integer or a string is found in a member exactly if the member is there and
/// is that very value.
pub proof fn values_are_found_where_they_are(
    members: Map<Seq<char>, MemberView>,
    name: Seq<char>,
    flag: bool,
    number: u64,
    text: Seq<char>,
)
    ensures
        member_flag(members, name) == Some(flag) <==> members.contains_key(name) && members[name]
            == MemberView::Flag(flag),
        member_unsigned(members, name) == Some(number) <==> members.contains_key(name)
            && members[name] == MemberView::Number(Some(number)),
        member_text(members, name) == Some(text) <==> members.contains_key(name) && members[name]
            == MemberView::Text(text),
{
}

/// The host reports success exactly if its reply has a member `ok` that is `true`.
pub proof fn success_is_ok_true(members: Map<Seq<char>, MemberView>)
    ensures
        succeeded(members) <==> members.contains_key("ok"@) && members["ok"@] == MemberView::Flag(
            true,
        ),
{
}

/// A change of the input mode succeeds exactly if the host says so, and else fails with the
/// host's message, word for word, or with `unknown` where there is no message.
pub proof fn mode_replies_mean_what_they_say(
    members: Map<Seq<char>, MemberView>,
    message: Seq<char>,
)
    ensures
        mode_verdict(members) is Ok <==> members.contains_key("ok"@) && members["ok"@]
            == MemberView::Flag(true),
        mode_verdict(members) is Err && members.contains_key("err"@) && members["err"@]
            == MemberView::Text(message) ==> mode_verdict(members) == Err::<(), Seq<char>>(message),
        mode_verdict(members) is Err && !(members.contains_key("err"@) && members["err"@] is Text)
            ==> mode_verdict(members) == Err::<(), Seq<char>>("unknown"@),
{
}

/// The size is known exactly if the host reports success. Each dimension is the number that the
/// host gives for it: exactly that number where it fits into sixteen bits, and its low sixteen
/// bits where it does not. Where no number is given there are eighty columns and twenty-four rows.
pub proof fn size_replies_mean_what_they_say(
    members: Map<Seq<char>, MemberView>,
    cols: u64,
    rows: u64,
)
    ensures
        size_verdict(members) is Ok <==> members.contains_key("ok"@) && members["ok"@]
            == MemberView::Flag(true),
        size_verdict(members) matches Ok(size) ==> {
            &&& members.contains_key("cols"@) && members["cols"@] == MemberView::Number(Some(cols))
                ==> size.0 == cols % 0x1_0000 && (cols <= 0xffff ==> size.0 == cols)
            &&& !(members.contains_key("cols"@) && members["cols"@] is Number
                && members["cols"@]->Number_0 is Some) ==> size.0 == 80
            &&& members.contains_key("rows"@) && members["rows"@] == MemberView::Number(Some(rows))
                ==> size.1 == rows % 0x1_0000 && (rows <= 0xffff ==> size.1 == rows)
            &&& !(members.contains_key("rows"@) && members["rows"@] is Number
                && members["rows"@]->Number_0 is Some) ==> size.1 == 24
        },
        size_verdict(members) is Err ==> size_verdict(members) == Err::<(u16, u16), Seq<char>>(
            "failed to get size"@,
        ),
{
}

/// A dimension depends on nothing but the host's success and the member of its own name.
pub proof fn dimensions_are_independent(
    a: Map<Seq<char>, MemberView>,
    b: Map<Seq<char>, MemberView>,
)
    requires
        size_verdict(a) is Ok,
        size_verdict(b) is Ok,
    ensures
        a.contains_key("cols"@) == b.contains_key("cols"@) && a["cols"@] == b["cols"@]
            ==> size_verdict(a)->Ok_0.0 == size_verdict(b)->Ok_0.0,
        a.contains_key("rows"@) == b.contains_key("rows"@) && a["rows"@] == b["rows"@]
            ==> size_verdict(a)->Ok_0.1 == size_verdict(b)->Ok_0.1,
{
}

} // verus!
