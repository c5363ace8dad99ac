//! Records of the host directory, and the rules that bear on them.
//!
//! The directory itself is kept elsewhere; the library sees its rows as
//! plain values.

use vstd::prelude::*;

verus! {

/// A group of hosts; groups nest through `parent_id`.
#[derive(Clone, Debug, PartialEq, Eq)]
pub struct Group {
    pub id: i64,
    pub name: String,
    pub parent_id: Option<i64>,
}

/// A host as it is listed: everything but its secret.
#[derive(Clone, Debug, PartialEq, Eq)]
pub struct Host {
    pub id: i64,
    pub name: String,
    pub host: String,
    pub port: i64,
    pub username: String,
    pub auth_type: String,
    pub group_id: Option<i64>,
}

/// Why a group cannot be deleted.
#[derive(Clone, Copy, Debug, PartialEq, Eq, Structural)]
pub enum GroupInUse {
    /// The group still has groups below it.
    HasSubGroups,
    /// The group still holds hosts.
    HasHosts,
}

impl GroupInUse {
    pub open spec fn text(self) -> Seq<char> {
        match self {
            GroupInUse::HasSubGroups => "Group masih memiliki sub group"@,
            GroupInUse::HasHosts => "Group masih memiliki host"@,
        }
    }

    /// The message shown to the user.
    pub fn message(self) -> (text: &'static str)
        ensures
            text@ == self.text(),
    {
        match self {
            GroupInUse::HasSubGroups => "Group masih memiliki sub group",
            GroupInUse::HasHosts => "Group masih memiliki host",
        }
    }
}

/// Whether a group with `sub_groups` groups below it and `hosts` hosts in
/// it may be deleted, and if not, why.
pub open spec fn group_removal(sub_groups: i64, hosts: i64) -> Result<(), GroupInUse> {
    if sub_groups > 0 {
        Err(GroupInUse::HasSubGroups)
    } else if hosts > 0 {
        Err(GroupInUse::HasHosts)
    } else {
        Ok(())
    }
}

/// Decides whether a group may be deleted. Only an empty group may; groups
/// below it are reported before hosts in it.
pub fn check_group_removal(sub_groups: i64, hosts: i64) -> (res: Result<(), GroupInUse>)
    ensures
        res == group_removal(sub_groups, hosts),
{
    if sub_groups > 0 {
        Err(GroupInUse::HasSubGroups)
    } else if hosts > 0 {
        Err(GroupInUse::HasHosts)
    } else {
        Ok(())
    }
}

/// The directory's row for one host, as a session needs it.
#[derive(Clone, Debug, PartialEq, Eq)]
pub struct HostRecord {
    pub host: String,
    pub port: i64,
    pub username: String,
    pub password: Option<String>,
}

/// A [`HostRecord`] with its strings as character sequences.
pub ghost struct HostRecordView {
    pub host: Seq<char>,
    pub port: i64,
    pub username: Seq<char>,
    pub password: Option<Seq<char>>,
}

impl View for HostRecord {
    type V = HostRecordView;

    open spec fn view(&self) -> HostRecordView {
        HostRecordView {
            host: self.host@,
            port: self.port,
            username: self.username@,
            password: match self.password {
                Some(secret) => Some(secret@),
                None => None,
            },
        }
    }
}

/// What the directory answered when asked for a host.
#[derive(Clone, Debug, PartialEq, Eq)]
pub enum HostLookup {
    Found(HostRecord),
    /// The directory has no such host.
    NotFound,
    /// The directory could not be asked: its lock could not be taken.
    Unavailable,
}

/// A [`HostLookup`] with its record as a view.
pub ghost enum HostLookupView {
    Found(HostRecordView),
    NotFound,
    Unavailable,
}

impl View for HostLookup {
    type V = HostLookupView;

    open spec fn view(&self) -> HostLookupView {
        match self {
            HostLookup::Found(record) => HostLookupView::Found(record@),
            HostLookup::NotFound => HostLookupView::NotFound,
            HostLookup::Unavailable => HostLookupView::Unavailable,
        }
    }
}

/// What a session needs to reach and enter a host: taken once from the
/// directory when the session starts.
#[derive(Clone, Debug, PartialEq, Eq)]
pub struct ConnectionParams {
    pub address: String,
    pub port: u16,
    pub username: String,
    pub secret: String,
}

/// [`ConnectionParams`] with its strings as character sequences.
pub ghost struct ConnectionParamsView {
    pub address: Seq<char>,
    pub port: u16,
    pub username: Seq<char>,
    pub secret: Seq<char>,
}

impl View for ConnectionParams {
    type V = ConnectionParamsView;

    open spec fn view(&self) -> ConnectionParamsView {
        ConnectionParamsView {
            address: self.address@,
            port: self.port,
            username: self.username@,
            secret: self.secret@,
        }
    }
}

impl HostRecordView {
    /// The connection parameters that the record gives, if it holds a
    /// secret. The port is the low 16 bits of the stored number.
    pub open spec fn params(self) -> Option<ConnectionParamsView> {
        match self.password {
            Some(secret) => Some(
                ConnectionParamsView {
                    address: self.host,
                    port: self.port as u16,
                    username: self.username,
                    secret,
                },
            ),
            None => None,
        }
    }
}

impl HostRecord {
    /// Turns the record into connection parameters. A record without a
    /// secret gives none: such a host cannot be entered.
    pub fn into_params(self) -> (params: Option<ConnectionParams>)
        ensures
            match params {
                Some(p) => self@.params() == Some(p@),
                None => self@.params() is None,
            },
    {
        match self.password {
            Some(secret) => Some(
                ConnectionParams {
                    address: self.host,
                    port: #[verifier::truncate]
                    (self.port as u16),
                    username: self.username,
                    secret,
                },
            ),
            None => None,
        }
    }
}

} // verus!
