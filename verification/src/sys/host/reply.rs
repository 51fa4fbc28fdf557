//! The host's replies: JSON objects whose member `ok` says whether a script did what it was
//! asked to.

use crate::error::{reports, Error};
use vstd::prelude::*;

verus! {

/// The value of one member of a JSON object, as far as replies are read: what lists and objects
/// hold is left out.
#[derive(Debug)]
pub enum Member {
    /// `null`.
    Null,
    /// `true` or `false`.
    Flag(bool),
    /// A number, which is given where it is an integer that is not negative and fits.
    Number(Option<u64>),
    /// A string.
    Text(String),
    /// A list.
    Array,
    /// An object.
    Object,
}

/// The view of a [`Member`].
pub enum MemberView {
    Null,
    Flag(bool),
    Number(Option<u64>),
    Text(Seq<char>),
    Array,
    Object,
}

impl View for Member {
    type V = MemberView;

    open spec fn view(&self) -> MemberView {
        match self {
            Member::Null => MemberView::Null,
            Member::Flag(flag) => MemberView::Flag(*flag),
            Member::Number(number) => MemberView::Number(*number),
            Member::Text(text) => MemberView::Text(text@),
            Member::Array => MemberView::Array,
            Member::Object => MemberView::Object,
        }
    }
}

/// A JSON document, as far as replies are read: the members of an object, or nothing where the
/// document is not an object. Of two members of one name the later counts.
#[derive(Debug)]
pub struct Document {
    /// The members, each with its name.
    pub members: Option<Vec<(String, Member)>>,
}

/// The members of `list` by name.
pub open spec fn members_by_name(list: Seq<(String, Member)>) -> Map<Seq<char>, MemberView>
    decreases list.len(),
{
    if list.len() == 0 {
        Map::empty()
    } else {
        members_by_name(list.drop_last()).insert(list.last().0@, list.last().1@)
    }
}

impl View for Document {
    type V = Map<Seq<char>, MemberView>;

    open spec fn view(&self) -> Map<Seq<char>, MemberView> {
        match self.members {
            Some(list) => members_by_name(list@),
            None => Map::empty(),
        }
    }
}

/// What the JSON text `text` stands for: the members of the object, by name, with none where it
/// is no object, or the message that says why it is no JSON text.
pub uninterp spec fn json_document(text: Seq<char>) -> Result<Map<Seq<char>, MemberView>, Seq<char>>;

/// The view of a parsed document.
pub open spec fn parsed_view(parsed: Result<Document, String>) -> Result<
    Map<Seq<char>, MemberView>,
    Seq<char>,
> {
    match parsed {
        Ok(document) => Ok(document@),
        Err(message) => Err(message@),
    }
}

/// Parses `text` with `serde_json::from_str`. Claimed is only that the outcome depends on the
/// text alone: `json_document` names it. The members of an object are taken over one by one,
/// numbers by `as_u64`; the message is the error's own.
#[verifier::external_body]
pub(crate) fn parse_document(text: &str) -> (parsed: Result<Document, String>)
    ensures
        parsed_view(parsed) == json_document(text@),
{
    let value: serde_json::Value = serde_json::from_str(text).map_err(|e| e.to_string())?;
    let members = value.as_object().map(|object| object.iter().map(|(name, v)| (name.clone(), match v {
        serde_json::Value::Null => Member::Null,
        serde_json::Value::Bool(flag) => Member::Flag(*flag),
        serde_json::Value::Number(number) => Member::Number(number.as_u64()),
        serde_json::Value::String(text) => Member::Text(text.clone()),
        serde_json::Value::Array(_) => Member::Array,
        serde_json::Value::Object(_) => Member::Object,
    })).collect());
    Ok(Document { members })
}

/// The truth value that member `name` holds, if there is such a member and it holds one.
pub open spec fn member_flag(members: Map<Seq<char>, MemberView>, name: Seq<char>) -> Option<bool> {
    if members.contains_key(name) {
        match members[name] {
            MemberView::Flag(flag) => Some(flag),
            _ => None,
        }
    } else {
        None
    }
}

/// The integer that member `name` holds, if there is such a member and it holds one.
pub open spec fn member_unsigned(members: Map<Seq<char>, MemberView>, name: Seq<char>) -> Option<u64> {
    if members.contains_key(name) {
        match members[name] {
            MemberView::Number(number) => number,
            _ => None,
        }
    } else {
        None
    }
}

/// The string that member `name` holds, if there is such a member and it holds one.
pub open spec fn member_text(members: Map<Seq<char>, MemberView>, name: Seq<char>) -> Option<Seq<
    char,
>> {
    if members.contains_key(name) {
        match members[name] {
            MemberView::Text(text) => Some(text),
            _ => None,
        }
    } else {
        None
    }
}

/// Whether the host reports success: only a member `ok` that is `true` does.
pub open spec fn succeeded(members: Map<Seq<char>, MemberView>) -> bool {
    member_flag(members, "ok"@) == Some(true)
}

/// What a reply to a change of the input mode means: success, or failure with the message that
/// the host gave, or `unknown` where it gave none.
pub open spec fn mode_verdict(members: Map<Seq<char>, MemberView>) -> Result<(), Seq<char>> {
    if succeeded(members) {
        Ok(())
    } else {
        match member_text(members, "err"@) {
            Some(message) => Err(message),
            None => Err("unknown"@),
        }
    }
}

/// The terminal dimension that `given` stands for, with `otherwise` where nothing is given. Of
/// a number with more than sixteen bits, the low sixteen count.
pub open spec fn dimension(given: Option<u64>, otherwise: u16) -> u16 {
    match given {
        Some(n) => (n % 0x1_0000) as u16,
        None => otherwise,
    }
}

/// What a reply to the question for the terminal's size means: columns and rows, or failure.
pub open spec fn size_verdict(members: Map<Seq<char>, MemberView>) -> Result<(u16, u16), Seq<char>> {
    if succeeded(members) {
        Ok(
            (
                dimension(member_unsigned(members, "cols"@), 80),
                dimension(member_unsigned(members, "rows"@), 24),
            ),
        )
    } else {
        Err("failed to get size"@)
    }
}

impl Document {
    /// The member `name`.
    pub fn get(&self, name: &str) -> (member: Option<&Member>)
        ensures
            match member {
                Some(m) => self@.contains_key(name@) && m@ == self@[name@],
                None => !self@.contains_key(name@),
            },
    {
        let list: &Vec<(String, Member)> = match &self.members {
            Some(list) => list,
            None => {
                return None;
            },
        };
        let wanted: String = name.to_owned();
        let mut i: usize = list.len();
        assert(list@.take(i as int) =~= list@);
        while i > 0
            invariant
                i <= list.len(),
                wanted@ == name@,
                self@ == members_by_name(list@),
                self@.contains_key(name@) == members_by_name(list@.take(i as int)).contains_key(
                    name@,
                ),
                self@.contains_key(name@) ==> self@[name@] == members_by_name(
                    list@.take(i as int),
                )[name@],
            decreases i,
        {
            i -= 1;
            assert(list@.take(i + 1).drop_last() =~= list@.take(i as int));
            if list[i].0 == wanted {
                return Some(&list[i].1);
            }
        }
        None
    }

    /// The truth value that member `name` holds.
    pub fn flag(&self, name: &str) -> (flag: Option<bool>)
        ensures
            flag == member_flag(self@, name@),
    {
        match self.get(name) {
            Some(Member::Flag(flag)) => Some(*flag),
            _ => None,
        }
    }

    /// The integer that member `name` holds.
    pub fn unsigned(&self, name: &str) -> (number: Option<u64>)
        ensures
            number == member_unsigned(self@, name@),
    {
        match self.get(name) {
            Some(Member::Number(number)) => *number,
            _ => None,
        }
    }

    /// The string that member `name` holds.
    pub fn text(&self, name: &str) -> (text: Option<String>)
        ensures
            match member_text(self@, name@) {
                Some(expected) => text matches Some(found) && found@ == expected,
                None => text is None,
            },
    {
        match self.get(name) {
            Some(Member::Text(text)) => Some(text.clone()),
            _ => None,
        }
    }

    /// Whether the host reports success.
    pub fn is_success(&self) -> (success: bool)
        ensures
            success == succeeded(self@),
    {
        match self.flag("ok") {
            Some(flag) => flag,
            None => false,
        }
    }

    /// What this reply to a change of the input mode means.
    pub fn mode_result(&self) -> (result: Result<(), Error>)
        ensures
            reports(result, mode_verdict(self@)),
    {
        if self.is_success() {
            Ok(())
        } else {
            match self.text("err") {
                Some(message) => Err(Error::io(message)),
                None => Err(Error::io("unknown".to_owned())),
            }
        }
    }

    /// What this reply to the question for the terminal's size means.
    pub fn size_result(&self) -> (result: Result<(u16, u16), Error>)
        ensures
            reports(result, size_verdict(self@)),
    {
        if self.is_success() {
            let cols: u16 = dimension_or(self.unsigned("cols"), 80);
            let rows: u16 = dimension_or(self.unsigned("rows"), 24);
            Ok((cols, rows))
        } else {
            Err(Error::io("failed to get size".to_owned()))
        }
    }
}

/// The terminal dimension that `given` stands for, with `otherwise` where nothing is given.
fn dimension_or(given: Option<u64>, otherwise: u16) -> (cells: u16)
    ensures
        cells == dimension(given, otherwise),
{
    match given {
        Some(n) => {
            assert((n as u16) == n % 0x1_0000) by (bit_vector);
            #[verifier::truncate]
            (n as u16)
        },
        None => otherwise,
    }
}

/// A terminal dimension that sixteen bits can hold is passed on as it is.
pub proof fn small_dimensions_are_exact(n: u64, otherwise: u16)
    requires
        n <= u16::MAX,
    ensures
        dimension(Some(n), otherwise) == n,
{
}

/// A host that reports success but no size has a terminal of eighty columns and twenty-four rows.
pub proof fn size_has_defaults(members: Map<Seq<char>, MemberView>)
    requires
        succeeded(members),
        member_unsigned(members, "cols"@) is None,
        member_unsigned(members, "rows"@) is None,
    ensures
        size_verdict(members) == Ok::<(u16, u16), Seq<char>>((80, 24)),
{
}

} // verus!
