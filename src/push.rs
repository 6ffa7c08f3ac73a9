use vstd::prelude::*;
use vstd::string::*;
use crate::json::{json_object_text, members_view, object_text};

verus! {

/// Target which data can be pushed to.
#[derive(Copy, Clone, Debug)]
pub enum PushTarget<'a> {
    /// Push to the user's own stream.
    SelfUser {},
    /// Send to a specific device.
    Device { iden: &'a str },
    /// Send to a user by email address (or by email if not a user).
    User { email: &'a str },
    /// Send to all subscribers of a channel, by tag.
    Channel { tag: &'a str },
    /// Send to all users who granted access to an OAuth client, by iden.
    Client { iden: &'a str },
}

/// Data which can be pushed.
#[derive(Copy, Clone, Debug)]
pub enum PushData<'a> {
    /// Note push.
    Note { title: &'a str, body: &'a str },
    /// Link push.
    Link { title: &'a str, body: &'a str, url: &'a str },
    /// File push; the file is uploaded first with an upload request.
    File { body: &'a str, file_name: &'a str, file_type: &'a str, file_url: &'a str },
}

/// The members that a target contributes to the push object.
pub open spec fn target_members(target: PushTarget) -> Seq<(Seq<char>, Seq<char>)> {
    match target {
        PushTarget::SelfUser {} => seq![],
        PushTarget::Device { iden } => seq![("device_iden"@, iden@)],
        PushTarget::User { email } => seq![("email"@, email@)],
        PushTarget::Channel { tag } => seq![("channel_tag"@, tag@)],
        PushTarget::Client { iden } => seq![("client_iden"@, iden@)],
    }
}

/// The members that the data contributes to the push object, its `type`
/// tag first.
pub open spec fn data_members(data: PushData) -> Seq<(Seq<char>, Seq<char>)> {
    match data {
        PushData::Note { title, body } => seq![
            ("type"@, "note"@),
            ("title"@, title@),
            ("body"@, body@),
        ],
        PushData::Link { title, body, url } => seq![
            ("type"@, "link"@),
            ("title"@, title@),
            ("body"@, body@),
            ("url"@, url@),
        ],
        PushData::File { body, file_name, file_type, file_url } => seq![
            ("type"@, "file"@),
            ("body"@, body@),
            ("file_name"@, file_name@),
            ("file_type"@, file_type@),
            ("file_url"@, file_url@),
        ],
    }
}

/// The flat push object: the data's members and the target's side by side.
pub open spec fn push_members_spec(target: PushTarget, data: PushData) -> Seq<(Seq<char>, Seq<char>)> {
    data_members(data) + target_members(target)
}

pub open spec fn member_names(members: Seq<(Seq<char>, Seq<char>)>) -> Seq<Seq<char>> {
    members.map_values(|m: (Seq<char>, Seq<char>)| m.0)
}

fn member(name: &str, value: &str) -> (r: (String, String))
    ensures
        r.0@ == name@,
        r.1@ == value@,
{
    (String::from_str(name), String::from_str(value))
}

/// The members of the push object for `target` and `data`, in order.
pub fn push_members(target: PushTarget, data: PushData) -> (r: Vec<(String, String)>)
    ensures
        members_view(r@) == push_members_spec(target, data),
{
    let mut r: Vec<(String, String)> = match data {
        PushData::Note { title, body } => vec![
            member("type", "note"),
            member("title", title),
            member("body", body),
        ],
        PushData::Link { title, body, url } => vec![
            member("type", "link"),
            member("title", title),
            member("body", body),
            member("url", url),
        ],
        PushData::File { body, file_name, file_type, file_url } => vec![
            member("type", "file"),
            member("body", body),
            member("file_name", file_name),
            member("file_type", file_type),
            member("file_url", file_url),
        ],
    };
    match target {
        PushTarget::SelfUser {} => {},
        PushTarget::Device { iden } => r.push(member("device_iden", iden)),
        PushTarget::User { email } => r.push(member("email", email)),
        PushTarget::Channel { tag } => r.push(member("channel_tag", tag)),
        PushTarget::Client { iden } => r.push(member("client_iden", iden)),
    }
    assert(members_view(r@) =~= push_members_spec(target, data));
    r
}

/// The JSON text of the push object for `target` and `data`.
pub fn push_body(target: PushTarget, data: PushData) -> (r: String)
    ensures
        r@ == json_object_text(push_members_spec(target, data)),
{
    let members = push_members(target, data);
    object_text(&members)
}

/// No member name occurs twice in a push object, so each field of the target
/// and of the data stands in the flat object once, beside the `type` tag.
pub proof fn lemma_push_member_names_distinct(target: PushTarget, data: PushData)
    ensures
        member_names(push_members_spec(target, data)).no_duplicates(),
        member_names(push_members_spec(target, data)).contains("type"@),
{
    reveal_strlit("type");
    reveal_strlit("title");
    reveal_strlit("body");
    reveal_strlit("url");
    reveal_strlit("file_name");
    reveal_strlit("file_type");
    reveal_strlit("file_url");
    reveal_strlit("device_iden");
    reveal_strlit("email");
    reveal_strlit("channel_tag");
    reveal_strlit("client_iden");
    let names = member_names(push_members_spec(target, data));
    assert(names[0] == "type"@);
    assert(names.len() <= 6);
    assert forall|i: int, j: int| 0 <= i < names.len() && 0 <= j < names.len() && i != j
        implies names[i] != names[j] by {
        if names[i] == names[j] {
            assert(names[i][0] == names[j][0]);
            assert(names[i][1] == names[j][1]);
            if names[i].len() > 5 {
                assert(names[i][5] == names[j][5]);
            }
        }
    }
}

} // verus!
