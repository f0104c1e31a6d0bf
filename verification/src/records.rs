//! The value records the API returns, with their mathematical views.

use vstd::prelude::*;

verus! {

/// The developer key and secret read from the credential file.
#[derive(Debug, Clone, PartialEq)]
pub struct Credentials {
    pub api_key: String,
    pub api_secret: String,
}

#[verifier::ext_equal]
pub struct CredentialsView {
    pub api_key: Seq<char>,
    pub api_secret: Seq<char>,
}

impl View for Credentials {
    type V = CredentialsView;

    open spec fn view(&self) -> CredentialsView {
        CredentialsView { api_key: self.api_key@, api_secret: self.api_secret@ }
    }
}

/// The authenticated principal, as the profile fetch returns it.
#[derive(Debug, Clone, PartialEq)]
pub struct Me {
    pub user_id: String,
    pub name: String,
    pub email: String,
    pub default_space_id: String,
}

#[verifier::ext_equal]
pub struct MeView {
    pub user_id: Seq<char>,
    pub name: Seq<char>,
    pub email: Seq<char>,
    pub default_space_id: Seq<char>,
}

impl View for Me {
    type V = MeView;

    open spec fn view(&self) -> MeView {
        MeView {
            user_id: self.user_id@,
            name: self.name@,
            email: self.email@,
            default_space_id: self.default_space_id@,
        }
    }
}

/// An active member of a space.
#[derive(Debug, Clone, PartialEq)]
pub struct Member {
    pub id: String,
    pub name: String,
    pub email: String,
    pub role: String,
}

#[verifier::ext_equal]
pub struct MemberView {
    pub id: Seq<char>,
    pub name: Seq<char>,
    pub email: Seq<char>,
    pub role: Seq<char>,
}

impl View for Member {
    type V = MemberView;

    open spec fn view(&self) -> MemberView {
        MemberView { id: self.id@, name: self.name@, email: self.email@, role: self.role@ }
    }
}

/// A member no longer active in the space; kept without email or role.
#[derive(Debug, Clone, PartialEq)]
pub struct RetiredMember {
    pub id: String,
    pub name: String,
}

#[verifier::ext_equal]
pub struct RetiredMemberView {
    pub id: Seq<char>,
    pub name: Seq<char>,
}

impl View for RetiredMember {
    type V = RetiredMemberView;

    open spec fn view(&self) -> RetiredMemberView {
        RetiredMemberView { id: self.id@, name: self.name@ }
    }
}

/// A workspace, with its active and retired members.
#[derive(Debug, Clone, PartialEq)]
pub struct Space {
    pub id: String,
    pub name: String,
    pub default: bool,
    pub members: Vec<Member>,
    pub retired_members: Vec<RetiredMember>,
}

#[verifier::ext_equal]
pub struct SpaceView {
    pub id: Seq<char>,
    pub name: Seq<char>,
    pub default: bool,
    pub members: Seq<MemberView>,
    pub retired_members: Seq<RetiredMemberView>,
}

impl View for Space {
    type V = SpaceView;

    open spec fn view(&self) -> SpaceView {
        SpaceView {
            id: self.id@,
            name: self.name@,
            default: self.default,
            members: self.members@.map_values(|m: Member| m@),
            retired_members: self.retired_members@.map_values(|m: RetiredMember| m@),
        }
    }
}

/// A trackable activity, optionally mapped to a device side.
#[derive(Debug, Clone, PartialEq)]
pub struct Activity {
    pub id: String,
    pub name: String,
    pub color: String,
    pub integration: String,
    pub space_id: String,
    pub device_side: Option<i64>,
}

#[verifier::ext_equal]
pub struct ActivityView {
    pub id: Seq<char>,
    pub name: Seq<char>,
    pub color: Seq<char>,
    pub integration: Seq<char>,
    pub space_id: Seq<char>,
    pub device_side: Option<i64>,
}

impl View for Activity {
    type V = ActivityView;

    open spec fn view(&self) -> ActivityView {
        ActivityView {
            id: self.id@,
            name: self.name@,
            color: self.color@,
            integration: self.integration@,
            space_id: self.space_id@,
            device_side: self.device_side,
        }
    }
}

} // verus!
