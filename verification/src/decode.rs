//! Decoding the service's JSON responses into records.
//!
//! Each response shape has a spec function that says exactly which
//! documents are accepted and what record they denote, and an
//! executable decoder proved against it. Decoding is strict: an object
//! must carry exactly the declared keys (any order), except
//! `deviceSide`, which an activity may omit.

use vstd::prelude::*;
use crate::error::ApiError;
use crate::json::{JsonValue, lookup, str_field, bool_field, int_field, obj_get};
use crate::records::{Me, MeView, Member, MemberView, RetiredMember, RetiredMemberView, Space,
    SpaceView, Activity, ActivityView};

verus! {

/// The token a well-formed sign-in response `{"token": t}` carries.
pub open spec fn spec_token(v: JsonValue) -> Option<Seq<char>> {
    match v {
        JsonValue::Obj(entries) => {
            if entries@.len() == 1 {
                str_field(entries@, "token"@)
            } else {
                None
            }
        },
        _ => None,
    }
}

/// The record a well-formed profile object denotes.
pub open spec fn spec_me(v: JsonValue) -> Option<MeView> {
    match v {
        JsonValue::Obj(entries) => {
            let e = entries@;
            if e.len() == 4 && str_field(e, "userId"@) is Some && str_field(e, "name"@) is Some
                && str_field(e, "email"@) is Some && str_field(e, "defaultSpaceId"@) is Some {
                Some(MeView {
                    user_id: str_field(e, "userId"@).unwrap(),
                    name: str_field(e, "name"@).unwrap(),
                    email: str_field(e, "email"@).unwrap(),
                    default_space_id: str_field(e, "defaultSpaceId"@).unwrap(),
                })
            } else {
                None
            }
        },
        _ => None,
    }
}

/// The record a well-formed profile envelope `{"data": me}` denotes.
pub open spec fn spec_me_envelope(v: JsonValue) -> Option<MeView> {
    match v {
        JsonValue::Obj(entries) => {
            if entries@.len() == 1 {
                match lookup(entries@, "data"@) {
                    Some(inner) => spec_me(inner),
                    None => None,
                }
            } else {
                None
            }
        },
        _ => None,
    }
}

/// The record a well-formed member object denotes.
pub open spec fn spec_member(v: JsonValue) -> Option<MemberView> {
    match v {
        JsonValue::Obj(entries) => {
            let e = entries@;
            if e.len() == 4 && str_field(e, "id"@) is Some && str_field(e, "name"@) is Some
                && str_field(e, "email"@) is Some && str_field(e, "role"@) is Some {
                Some(MemberView {
                    id: str_field(e, "id"@).unwrap(),
                    name: str_field(e, "name"@).unwrap(),
                    email: str_field(e, "email"@).unwrap(),
                    role: str_field(e, "role"@).unwrap(),
                })
            } else {
                None
            }
        },
        _ => None,
    }
}

/// The record a well-formed retired-member object denotes.
pub open spec fn spec_retired_member(v: JsonValue) -> Option<RetiredMemberView> {
    match v {
        JsonValue::Obj(entries) => {
            let e = entries@;
            if e.len() == 2 && str_field(e, "id"@) is Some && str_field(e, "name"@) is Some {
                Some(RetiredMemberView {
                    id: str_field(e, "id"@).unwrap(),
                    name: str_field(e, "name"@).unwrap(),
                })
            } else {
                None
            }
        },
        _ => None,
    }
}

/// The member records a member array denotes, where every element is
/// well formed.
pub open spec fn spec_members(s: Seq<JsonValue>) -> Option<Seq<MemberView>> {
    if forall|i: int| 0 <= i < s.len() ==> spec_member(s[i]) is Some {
        Some(Seq::new(s.len(), |i: int| spec_member(s[i]).unwrap()))
    } else {
        None
    }
}

/// The retired-member records a retired-member array denotes.
pub open spec fn spec_retired_members(s: Seq<JsonValue>) -> Option<Seq<RetiredMemberView>> {
    if forall|i: int| 0 <= i < s.len() ==> spec_retired_member(s[i]) is Some {
        Some(Seq::new(s.len(), |i: int| spec_retired_member(s[i]).unwrap()))
    } else {
        None
    }
}

/// The record a well-formed space object denotes.
pub open spec fn spec_space(v: JsonValue) -> Option<SpaceView> {
    match v {
        JsonValue::Obj(entries) => {
            let e = entries@;
            if e.len() == 5 && str_field(e, "id"@) is Some && str_field(e, "name"@) is Some
                && bool_field(e, "default"@) is Some {
                match (lookup(e, "members"@), lookup(e, "retiredMembers"@)) {
                    (Some(JsonValue::Arr(ms)), Some(JsonValue::Arr(rs))) => {
                        match (spec_members(ms@), spec_retired_members(rs@)) {
                            (Some(members), Some(retired)) => Some(SpaceView {
                                id: str_field(e, "id"@).unwrap(),
                                name: str_field(e, "name"@).unwrap(),
                                default: bool_field(e, "default"@).unwrap(),
                                members: members,
                                retired_members: retired,
                            }),
                            _ => None,
                        }
                    },
                    _ => None,
                }
            } else {
                None
            }
        },
        _ => None,
    }
}

/// The space records a space array denotes.
pub open spec fn spec_space_list(s: Seq<JsonValue>) -> Option<Seq<SpaceView>> {
    if forall|i: int| 0 <= i < s.len() ==> spec_space(s[i]) is Some {
        Some(Seq::new(s.len(), |i: int| spec_space(s[i]).unwrap()))
    } else {
        None
    }
}

/// The spaces a well-formed envelope `{"data": [space, ...]}` denotes,
/// in the order the server gave them.
pub open spec fn spec_spaces_envelope(v: JsonValue) -> Option<Seq<SpaceView>> {
    match v {
        JsonValue::Obj(entries) => {
            if entries@.len() == 1 {
                match lookup(entries@, "data"@) {
                    Some(JsonValue::Arr(s)) => spec_space_list(s@),
                    _ => None,
                }
            } else {
                None
            }
        },
        _ => None,
    }
}

/// The record a well-formed activity object denotes. `deviceSide` may
/// be absent; every other field is required.
pub open spec fn spec_activity(v: JsonValue) -> Option<ActivityView> {
    match v {
        JsonValue::Obj(entries) => {
            let e = entries@;
            if str_field(e, "id"@) is Some && str_field(e, "name"@) is Some
                && str_field(e, "color"@) is Some && str_field(e, "integration"@) is Some
                && str_field(e, "spaceId"@) is Some {
                if e.len() == 5 {
                    Some(ActivityView {
                        id: str_field(e, "id"@).unwrap(),
                        name: str_field(e, "name"@).unwrap(),
                        color: str_field(e, "color"@).unwrap(),
                        integration: str_field(e, "integration"@).unwrap(),
                        space_id: str_field(e, "spaceId"@).unwrap(),
                        device_side: None,
                    })
                } else if e.len() == 6 && int_field(e, "deviceSide"@) is Some {
                    Some(ActivityView {
                        id: str_field(e, "id"@).unwrap(),
                        name: str_field(e, "name"@).unwrap(),
                        color: str_field(e, "color"@).unwrap(),
                        integration: str_field(e, "integration"@).unwrap(),
                        space_id: str_field(e, "spaceId"@).unwrap(),
                        device_side: Some(int_field(e, "deviceSide"@).unwrap()),
                    })
                } else {
                    None
                }
            } else {
                None
            }
        },
        _ => None,
    }
}

/// The activity records an activity array denotes.
pub open spec fn spec_activity_list(s: Seq<JsonValue>) -> Option<Seq<ActivityView>> {
    if forall|i: int| 0 <= i < s.len() ==> spec_activity(s[i]) is Some {
        Some(Seq::new(s.len(), |i: int| spec_activity(s[i]).unwrap()))
    } else {
        None
    }
}

/// The three activity lists a well-formed activities envelope carries:
/// active, inactive and archived, in that order.
pub open spec fn spec_activities_envelope(v: JsonValue) -> Option<(Seq<ActivityView>,
    Seq<ActivityView>, Seq<ActivityView>)> {
    match v {
        JsonValue::Obj(entries) => {
            let e = entries@;
            if e.len() == 3 {
                match (lookup(e, "activities"@), lookup(e, "inactiveActivities"@),
                    lookup(e, "archivedActivities"@)) {
                    (Some(JsonValue::Arr(a)), Some(JsonValue::Arr(i)), Some(JsonValue::Arr(r))) => {
                        match (spec_activity_list(a@), spec_activity_list(i@),
                            spec_activity_list(r@)) {
                            (Some(active), Some(inactive), Some(archived)) =>
                                Some((active, inactive, archived)),
                            _ => None,
                        }
                    },
                    _ => None,
                }
            } else {
                None
            }
        },
        _ => None,
    }
}

/// Whether an HTTP status code reports success.
pub open spec fn spec_success(status: u16) -> bool {
    200 <= status < 300
}

/// The outcome of the sign-in call, from the response's status and its
/// body. A rejected status is an authentication failure; a body that is
/// not JSON (`None`) or not of the shape `{"token": t}` is a decode
/// failure; otherwise the call yields the token verbatim, so the token
/// is non-empty exactly when the server sent a non-empty one.
pub fn interpret_sign_in(status: u16, body: Option<&JsonValue>) -> (r: Result<String, ApiError>)
    ensures
        !spec_success(status) ==> r == Err::<String, ApiError>(ApiError::Authentication),
        spec_success(status) ==> match body {
            Some(v) => match spec_token(*v) {
                Some(t) => r matches Ok(tok) && tok@ == t,
                None => r == Err::<String, ApiError>(ApiError::Decode),
            },
            None => r == Err::<String, ApiError>(ApiError::Decode),
        },
{
    if status < 200 || status >= 300 {
        return Err(ApiError::Authentication);
    }
    match body {
        Some(v) => match decode_token(v) {
            Some(t) => Ok(t),
            None => Err(ApiError::Decode),
        },
        None => Err(ApiError::Decode),
    }
}

/// The outcome of the profile fetch. A rejected status means the token
/// was not accepted; a malformed body is a decode failure; otherwise
/// the record inside the `data` envelope is returned.
pub fn interpret_me(status: u16, body: Option<&JsonValue>) -> (r: Result<Me, ApiError>)
    ensures
        !spec_success(status) ==> r == Err::<Me, ApiError>(ApiError::Authorization),
        spec_success(status) ==> match body {
            Some(v) => match spec_me_envelope(*v) {
                Some(m) => r matches Ok(me) && me@ == m,
                None => r == Err::<Me, ApiError>(ApiError::Decode),
            },
            None => r == Err::<Me, ApiError>(ApiError::Decode),
        },
{
    if status < 200 || status >= 300 {
        return Err(ApiError::Authorization);
    }
    match body {
        Some(v) => match decode_me_envelope(v) {
            Some(m) => Ok(m),
            None => Err(ApiError::Decode),
        },
        None => Err(ApiError::Decode),
    }
}

/// The outcome of the spaces fetch: the list of spaces verbatim, in the
/// server's order, with no filtering.
pub fn interpret_spaces(status: u16, body: Option<&JsonValue>) -> (r: Result<Vec<Space>, ApiError>)
    ensures
        !spec_success(status) ==> r == Err::<Vec<Space>, ApiError>(ApiError::Authorization),
        spec_success(status) ==> match body {
            Some(v) => match spec_spaces_envelope(*v) {
                Some(s) => r matches Ok(spaces) && spaces@.map_values(|sp: Space| sp@) == s,
                None => r == Err::<Vec<Space>, ApiError>(ApiError::Decode),
            },
            None => r == Err::<Vec<Space>, ApiError>(ApiError::Decode),
        },
{
    if status < 200 || status >= 300 {
        return Err(ApiError::Authorization);
    }
    match body {
        Some(v) => match decode_spaces_envelope(v) {
            Some(s) => Ok(s),
            None => Err(ApiError::Decode),
        },
        None => Err(ApiError::Decode),
    }
}

/// The outcome of the activities fetch: exactly the active list, in the
/// server's order; the inactive and archived lists are validated and
/// discarded.
pub fn interpret_activities(status: u16, body: Option<&JsonValue>) -> (r: Result<Vec<Activity>,
    ApiError>)
    ensures
        !spec_success(status) ==> r == Err::<Vec<Activity>, ApiError>(ApiError::Authorization),
        spec_success(status) ==> match body {
            Some(v) => match spec_activities_envelope(*v) {
                Some(t) => r matches Ok(acts) && acts@.map_values(|a: Activity| a@) == t.0,
                None => r == Err::<Vec<Activity>, ApiError>(ApiError::Decode),
            },
            None => r == Err::<Vec<Activity>, ApiError>(ApiError::Decode),
        },
{
    if status < 200 || status >= 300 {
        return Err(ApiError::Authorization);
    }
    match body {
        Some(v) => match decode_activities_envelope(v) {
            Some(a) => Ok(a),
            None => Err(ApiError::Decode),
        },
        None => Err(ApiError::Decode),
    }
}

/// A space whose `members` and `retiredMembers` arrays are both empty
/// is legal: it decodes, and both record lists come out empty.
pub proof fn lemma_space_with_empty_member_lists_decodes(v: JsonValue)
    requires
        v matches JsonValue::Obj(entries) && entries@.len() == 5
            && str_field(entries@, "id"@) is Some
            && str_field(entries@, "name"@) is Some
            && bool_field(entries@, "default"@) is Some
            && (lookup(entries@, "members"@) matches Some(JsonValue::Arr(ms)) && ms@.len() == 0)
            && (lookup(entries@, "retiredMembers"@) matches Some(JsonValue::Arr(rs))
                && rs@.len() == 0),
    ensures
        spec_space(v) is Some,
        spec_space(v).unwrap().members == Seq::<MemberView>::empty(),
        spec_space(v).unwrap().retired_members == Seq::<RetiredMemberView>::empty(),
{
    let entries = v->Obj_0;
    let ms = lookup(entries@, "members"@).unwrap()->Arr_0;
    let rs = lookup(entries@, "retiredMembers"@).unwrap()->Arr_0;
    assert(Seq::new(ms@.len(), |i: int| spec_member(ms@[i]).unwrap())
        =~= Seq::<MemberView>::empty());
    assert(Seq::new(rs@.len(), |i: int| spec_retired_member(rs@[i]).unwrap())
        =~= Seq::<RetiredMemberView>::empty());
}

/// An activity object without a `deviceSide` entry decodes, and its
/// record carries no device side.
pub proof fn lemma_device_side_absent(v: JsonValue)
    requires
        v matches JsonValue::Obj(entries) && entries@.len() == 5
            && str_field(entries@, "id"@) is Some
            && str_field(entries@, "name"@) is Some
            && str_field(entries@, "color"@) is Some
            && str_field(entries@, "integration"@) is Some
            && str_field(entries@, "spaceId"@) is Some,
    ensures
        spec_activity(v) is Some,
        spec_activity(v).unwrap().device_side is None,
{
}

/// An activity object with `deviceSide: n` decodes, and its record
/// carries device side `n`.
pub proof fn lemma_device_side_present(v: JsonValue, n: i64)
    requires
        v matches JsonValue::Obj(entries) && entries@.len() == 6
            && str_field(entries@, "id"@) is Some
            && str_field(entries@, "name"@) is Some
            && str_field(entries@, "color"@) is Some
            && str_field(entries@, "integration"@) is Some
            && str_field(entries@, "spaceId"@) is Some
            && int_field(entries@, "deviceSide"@) == Some(n),
    ensures
        spec_activity(v) is Some,
        spec_activity(v).unwrap().device_side == Some(n),
{
}

/// Extracts the session token from a sign-in response body.
pub fn decode_token(v: &JsonValue) -> (r: Option<String>)
    ensures
        match r {
            Some(t) => spec_token(*v) == Some(t@),
            None => spec_token(*v) is None,
        },
{
    match v {
        JsonValue::Obj(entries) => {
            if entries.len() != 1 {
                return None;
            }
            match obj_get(entries, "token") {
                Some(JsonValue::Str(s)) => Some(s.clone()),
                _ => None,
            }
        },
        _ => None,
    }
}

/// Decodes a profile object into a record.
pub fn decode_me(v: &JsonValue) -> (r: Option<Me>)
    ensures
        match r {
            Some(m) => spec_me(*v) == Some(m@),
            None => spec_me(*v) is None,
        },
{
    match v {
        JsonValue::Obj(entries) => {
            if entries.len() != 4 {
                return None;
            }
            let user_id = match obj_get(entries, "userId") {
                Some(JsonValue::Str(s)) => s.clone(),
                _ => { return None; },
            };
            let name = match obj_get(entries, "name") {
                Some(JsonValue::Str(s)) => s.clone(),
                _ => { return None; },
            };
            let email = match obj_get(entries, "email") {
                Some(JsonValue::Str(s)) => s.clone(),
                _ => { return None; },
            };
            let default_space_id = match obj_get(entries, "defaultSpaceId") {
                Some(JsonValue::Str(s)) => s.clone(),
                _ => { return None; },
            };
            Some(Me { user_id, name, email, default_space_id })
        },
        _ => None,
    }
}

/// Decodes the profile envelope `{"data": me}`.
pub fn decode_me_envelope(v: &JsonValue) -> (r: Option<Me>)
    ensures
        match r {
            Some(m) => spec_me_envelope(*v) == Some(m@),
            None => spec_me_envelope(*v) is None,
        },
{
    match v {
        JsonValue::Obj(entries) => {
            if entries.len() != 1 {
                return None;
            }
            match obj_get(entries, "data") {
                Some(inner) => decode_me(inner),
                None => None,
            }
        },
        _ => None,
    }
}

/// Decodes a member object into a record.
pub fn decode_member(v: &JsonValue) -> (r: Option<Member>)
    ensures
        match r {
            Some(m) => spec_member(*v) == Some(m@),
            None => spec_member(*v) is None,
        },
{
    match v {
        JsonValue::Obj(entries) => {
            if entries.len() != 4 {
                return None;
            }
            let id = match obj_get(entries, "id") {
                Some(JsonValue::Str(s)) => s.clone(),
                _ => { return None; },
            };
            let name = match obj_get(entries, "name") {
                Some(JsonValue::Str(s)) => s.clone(),
                _ => { return None; },
            };
            let email = match obj_get(entries, "email") {
                Some(JsonValue::Str(s)) => s.clone(),
                _ => { return None; },
            };
            let role = match obj_get(entries, "role") {
                Some(JsonValue::Str(s)) => s.clone(),
                _ => { return None; },
            };
            Some(Member { id, name, email, role })
        },
        _ => None,
    }
}

/// Decodes a retired-member object into a record.
pub fn decode_retired_member(v: &JsonValue) -> (r: Option<RetiredMember>)
    ensures
        match r {
            Some(m) => spec_retired_member(*v) == Some(m@),
            None => spec_retired_member(*v) is None,
        },
{
    match v {
        JsonValue::Obj(entries) => {
            if entries.len() != 2 {
                return None;
            }
            let id = match obj_get(entries, "id") {
                Some(JsonValue::Str(s)) => s.clone(),
                _ => { return None; },
            };
            let name = match obj_get(entries, "name") {
                Some(JsonValue::Str(s)) => s.clone(),
                _ => { return None; },
            };
            Some(RetiredMember { id, name })
        },
        _ => None,
    }
}

/// Decodes an array of member objects, in order.
pub fn decode_member_list(s: &Vec<JsonValue>) -> (r: Option<Vec<Member>>)
    ensures
        match r {
            Some(out) => spec_members(s@) == Some(out@.map_values(|m: Member| m@)),
            None => spec_members(s@) is None,
        },
{
    let mut out: Vec<Member> = Vec::new();
    let mut i: usize = 0;
    while i < s.len()
        invariant
            i <= s@.len(),
            out@.len() == i,
            forall|j: int| 0 <= j < i ==> spec_member(s@[j]) is Some,
            forall|j: int| 0 <= j < i ==> #[trigger] out@[j]@ == spec_member(s@[j]).unwrap(),
        decreases s@.len() - i,
    {
        match decode_member(&s[i]) {
            Some(m) => out.push(m),
            None => {
                proof {
                    assert(spec_member(s@[i as int]) is None);
                }
                return None;
            },
        }
        i += 1;
    }
    proof {
        assert(Seq::new(s@.len(), |j: int| spec_member(s@[j]).unwrap())
            =~= out@.map_values(|m: Member| m@));
    }
    Some(out)
}

/// Decodes an array of retired-member objects, in order.
pub fn decode_retired_member_list(s: &Vec<JsonValue>) -> (r: Option<Vec<RetiredMember>>)
    ensures
        match r {
            Some(out) => spec_retired_members(s@)
                == Some(out@.map_values(|m: RetiredMember| m@)),
            None => spec_retired_members(s@) is None,
        },
{
    let mut out: Vec<RetiredMember> = Vec::new();
    let mut i: usize = 0;
    while i < s.len()
        invariant
            i <= s@.len(),
            out@.len() == i,
            forall|j: int| 0 <= j < i ==> spec_retired_member(s@[j]) is Some,
            forall|j: int| 0 <= j < i ==> #[trigger] out@[j]@
                == spec_retired_member(s@[j]).unwrap(),
        decreases s@.len() - i,
    {
        match decode_retired_member(&s[i]) {
            Some(m) => out.push(m),
            None => {
                proof {
                    assert(spec_retired_member(s@[i as int]) is None);
                }
                return None;
            },
        }
        i += 1;
    }
    proof {
        assert(Seq::new(s@.len(), |j: int| spec_retired_member(s@[j]).unwrap())
            =~= out@.map_values(|m: RetiredMember| m@));
    }
    Some(out)
}

/// Decodes a space object, with its member lists.
pub fn decode_space(v: &JsonValue) -> (r: Option<Space>)
    ensures
        match r {
            Some(s) => spec_space(*v) == Some(s@),
            None => spec_space(*v) is None,
        },
{
    match v {
        JsonValue::Obj(entries) => {
            if entries.len() != 5 {
                return None;
            }
            let id = match obj_get(entries, "id") {
                Some(JsonValue::Str(s)) => s.clone(),
                _ => { return None; },
            };
            let name = match obj_get(entries, "name") {
                Some(JsonValue::Str(s)) => s.clone(),
                _ => { return None; },
            };
            let default = match obj_get(entries, "default") {
                Some(JsonValue::Bool(b)) => *b,
                _ => { return None; },
            };
            let ms = match obj_get(entries, "members") {
                Some(JsonValue::Arr(ms)) => ms,
                _ => { return None; },
            };
            let rs = match obj_get(entries, "retiredMembers") {
                Some(JsonValue::Arr(rs)) => rs,
                _ => { return None; },
            };
            let members = match decode_member_list(ms) {
                Some(m) => m,
                None => { return None; },
            };
            let retired_members = match decode_retired_member_list(rs) {
                Some(m) => m,
                None => { return None; },
            };
            let sp = Space { id, name, default, members, retired_members };
            proof {
                assert(spec_space(*v) == Some(sp@));
            }
            Some(sp)
        },
        _ => None,
    }
}

/// Decodes the spaces envelope `{"data": [space, ...]}`, keeping the
/// server's order.
pub fn decode_spaces_envelope(v: &JsonValue) -> (r: Option<Vec<Space>>)
    ensures
        match r {
            Some(out) => spec_spaces_envelope(*v) == Some(out@.map_values(|s: Space| s@)),
            None => spec_spaces_envelope(*v) is None,
        },
{
    match v {
        JsonValue::Obj(entries) => {
            if entries.len() != 1 {
                return None;
            }
            let arr = match obj_get(entries, "data") {
                Some(JsonValue::Arr(s)) => s,
                _ => { return None; },
            };
            decode_space_list(arr)
        },
        _ => None,
    }
}

/// Decodes an array of space objects, in order.
pub fn decode_space_list(s: &Vec<JsonValue>) -> (r: Option<Vec<Space>>)
    ensures
        match r {
            Some(out) => spec_space_list(s@) == Some(out@.map_values(|sp: Space| sp@)),
            None => spec_space_list(s@) is None,
        },
{
    let mut out: Vec<Space> = Vec::new();
    let mut i: usize = 0;
    while i < s.len()
        invariant
            i <= s@.len(),
            out@.len() == i,
            forall|j: int| 0 <= j < i ==> spec_space(s@[j]) is Some,
            forall|j: int| 0 <= j < i ==> #[trigger] out@[j]@ == spec_space(s@[j]).unwrap(),
        decreases s@.len() - i,
    {
        match decode_space(&s[i]) {
            Some(sp) => out.push(sp),
            None => {
                proof {
                    assert(spec_space(s@[i as int]) is None);
                }
                return None;
            },
        }
        i += 1;
    }
    proof {
        assert(Seq::new(s@.len(), |j: int| spec_space(s@[j]).unwrap())
            =~= out@.map_values(|sp: Space| sp@));
    }
    Some(out)
}

/// Decodes a single activity object.
pub fn decode_activity(v: &JsonValue) -> (r: Option<Activity>)
    ensures
        match r {
            Some(a) => spec_activity(*v) == Some(a@),
            None => spec_activity(*v) is None,
        },
{
    match v {
        JsonValue::Obj(entries) => {
            if entries.len() != 5 && entries.len() != 6 {
                return None;
            }
            let id = match obj_get(entries, "id") {
                Some(JsonValue::Str(s)) => s.clone(),
                _ => { return None; },
            };
            let name = match obj_get(entries, "name") {
                Some(JsonValue::Str(s)) => s.clone(),
                _ => { return None; },
            };
            let color = match obj_get(entries, "color") {
                Some(JsonValue::Str(s)) => s.clone(),
                _ => { return None; },
            };
            let integration = match obj_get(entries, "integration") {
                Some(JsonValue::Str(s)) => s.clone(),
                _ => { return None; },
            };
            let space_id = match obj_get(entries, "spaceId") {
                Some(JsonValue::Str(s)) => s.clone(),
                _ => { return None; },
            };
            let device_side = if entries.len() == 6 {
                match obj_get(entries, "deviceSide") {
                    Some(JsonValue::Int(n)) => Some(*n),
                    _ => { return None; },
                }
            } else {
                None
            };
            Some(Activity { id, name, color, integration, space_id, device_side })
        },
        _ => None,
    }
}

/// Decodes an array of activity objects, in order.
pub fn decode_activity_list(s: &Vec<JsonValue>) -> (r: Option<Vec<Activity>>)
    ensures
        match r {
            Some(out) => spec_activity_list(s@) == Some(out@.map_values(|a: Activity| a@)),
            None => spec_activity_list(s@) is None,
        },
{
    let mut out: Vec<Activity> = Vec::new();
    let mut i: usize = 0;
    while i < s.len()
        invariant
            i <= s@.len(),
            out@.len() == i,
            forall|j: int| 0 <= j < i ==> spec_activity(s@[j]) is Some,
            forall|j: int| 0 <= j < i ==> #[trigger] out@[j]@ == spec_activity(s@[j]).unwrap(),
        decreases s@.len() - i,
    {
        match decode_activity(&s[i]) {
            Some(a) => out.push(a),
            None => {
                proof {
                    assert(spec_activity(s@[i as int]) is None);
                }
                return None;
            },
        }
        i += 1;
    }
    proof {
        assert(Seq::new(s@.len(), |j: int| spec_activity(s@[j]).unwrap())
            =~= out@.map_values(|a: Activity| a@));
    }
    Some(out)
}

/// Decodes the activities envelope and keeps only the active list: the
/// inactive and archived lists are checked against the schema and then
/// discarded, on purpose.
pub fn decode_activities_envelope(v: &JsonValue) -> (r: Option<Vec<Activity>>)
    ensures
        match r {
            Some(out) => spec_activities_envelope(*v) is Some
                && spec_activities_envelope(*v).unwrap().0 == out@.map_values(|a: Activity| a@),
            None => spec_activities_envelope(*v) is None,
        },
{
    match v {
        JsonValue::Obj(entries) => {
            if entries.len() != 3 {
                return None;
            }
            let active_arr = match obj_get(entries, "activities") {
                Some(JsonValue::Arr(s)) => s,
                _ => { return None; },
            };
            let inactive_arr = match obj_get(entries, "inactiveActivities") {
                Some(JsonValue::Arr(s)) => s,
                _ => { return None; },
            };
            let archived_arr = match obj_get(entries, "archivedActivities") {
                Some(JsonValue::Arr(s)) => s,
                _ => { return None; },
            };
            let active = match decode_activity_list(active_arr) {
                Some(a) => a,
                None => { return None; },
            };
            let inactive = match decode_activity_list(inactive_arr) {
                Some(a) => a,
                None => { return None; },
            };
            let archived = match decode_activity_list(archived_arr) {
                Some(a) => a,
                None => { return None; },
            };
            Some(active)
        },
        _ => None,
    }
}

} // verus!
