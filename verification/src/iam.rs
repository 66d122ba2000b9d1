//! IAM views: users, roles and groups, their records and columns, ARNs and
//! console addresses, and the state the actions work on.
use vstd::prelude::*;
use vstd::string::*;
use crate::common::{first_value, lookup, translated_label, with_defaults, ColumnId, InputFocus, Translations};
use crate::table::{kept_indices, TableState};
use crate::text::{filter_keeps, filter_matches, str_eq};

pub mod actions;

use crate::common::{cyclic_next, cyclic_prev, lemma_cyclic_law, CyclicEnum};

verus! {

/// An IAM user.
#[derive(Clone, Debug)]
pub struct IamUser {
    pub user_name: String,
    pub path: String,
    pub groups: String,
    pub last_activity: String,
    pub mfa: String,
    pub password_age: String,
    pub console_last_sign_in: String,
    pub access_key_id: String,
    pub active_key_age: String,
    pub access_key_last_used: String,
    pub arn: String,
    pub creation_time: String,
    pub console_access: String,
    pub signing_certs: String,
}

/// An IAM role.
#[derive(Clone, Debug)]
pub struct IamRole {
    pub role_name: String,
    pub path: String,
    pub trusted_entities: String,
    pub last_activity: String,
    pub arn: String,
    pub creation_time: String,
    pub description: String,
    pub max_session_duration: Option<i32>,
}

/// An IAM group.
#[derive(Clone, Debug)]
pub struct IamGroup {
    pub group_name: String,
    pub path: String,
    pub users: String,
    pub permissions: String,
    pub creation_time: String,
}

/// A policy attached to a user, role or group.
#[derive(Clone, Debug)]
pub struct Policy {
    pub policy_name: String,
    pub policy_type: String,
    pub attached_via: String,
    pub attached_entities: String,
    pub description: String,
    pub creation_time: String,
    pub edited_time: String,
    pub policy_arn: Option<String>,
}

/// A tag of a role.
#[derive(Clone, Debug)]
pub struct RoleTag {
    pub key: String,
    pub value: String,
}

/// A tag of a user.
#[derive(Clone, Debug)]
pub struct UserTag {
    pub key: String,
    pub value: String,
}

/// A group a user belongs to.
#[derive(Clone, Debug)]
pub struct UserGroup {
    pub group_name: String,
    pub attached_policies: String,
}

/// A user of a group.
#[derive(Clone, Debug)]
pub struct GroupUser {
    pub user_name: String,
    pub groups: String,
    pub last_activity: String,
    pub creation_time: String,
}

/// When a service was last accessed with an entity's permissions.
#[derive(Clone, Debug)]
pub struct LastAccessedService {
    pub service: String,
    pub policies_granting: String,
    pub last_accessed: String,
}

/// The ARN of an IAM resource: `arn:aws:iam::ACCOUNT:TYPE/NAME`.
pub open spec fn arn_of(account_id: Seq<char>, resource_type: Seq<char>, resource_name: Seq<char>) -> Seq<char> {
    "arn:aws:iam::"@ + account_id + ":"@ + resource_type + "/"@ + resource_name
}

/// The ARN of an IAM resource.
pub fn format_arn(account_id: &str, resource_type: &str, resource_name: &str) -> (r: String)
    ensures
        r@ == arn_of(account_id@, resource_type@, resource_name@),
{
    let mut s = String::from_str("arn:aws:iam::");
    s.append(account_id);
    s.append(":");
    s.append(resource_type);
    s.append("/");
    s.append(resource_name);
    s
}

/// The console address of the IAM users (the same in every region).
pub fn console_url_users(_region: &str) -> (r: String)
    ensures
        r@ == "https://console.aws.amazon.com/iam/home#/users"@,
{
    String::from_str("https://console.aws.amazon.com/iam/home#/users")
}

/// The console address of a section of a user.
pub open spec fn user_detail_address(region: Seq<char>, user: Seq<char>, section: Seq<char>) -> Seq<char> {
    "https://"@ + region + ".console.aws.amazon.com/iam/home?region="@ + region + "#/users/details/"@ + user
        + "?section="@ + section
}

/// The console address of a section of a user.
pub fn console_url_user_detail(region: &str, user_name: &str, section: &str) -> (r: String)
    ensures
        r@ == user_detail_address(region@, user_name@, section@),
{
    let mut s = String::from_str("https://");
    s.append(region);
    s.append(".console.aws.amazon.com/iam/home?region=");
    s.append(region);
    s.append("#/users/details/");
    s.append(user_name);
    s.append("?section=");
    s.append(section);
    s
}

/// The console address of the IAM roles (the same in every region).
pub fn console_url_roles(_region: &str) -> (r: String)
    ensures
        r@ == "https://console.aws.amazon.com/iam/home#/roles"@,
{
    String::from_str("https://console.aws.amazon.com/iam/home#/roles")
}

/// The console address of a section of a role.
pub open spec fn role_detail_address(region: Seq<char>, role: Seq<char>, section: Seq<char>) -> Seq<char> {
    "https://"@ + region + ".console.aws.amazon.com/iam/home?region="@ + region + "#/roles/details/"@ + role
        + "?section="@ + section
}

/// The console address of a section of a role.
pub fn console_url_role_detail(region: &str, role_name: &str, section: &str) -> (r: String)
    ensures
        r@ == role_detail_address(region@, role_name@, section@),
{
    let mut s = String::from_str("https://");
    s.append(region);
    s.append(".console.aws.amazon.com/iam/home?region=");
    s.append(region);
    s.append("#/roles/details/");
    s.append(role_name);
    s.append("?section=");
    s.append(section);
    s
}

/// The console address of the editor of a role's policy.
pub open spec fn role_policy_address(region: Seq<char>, role: Seq<char>, policy: Seq<char>) -> Seq<char> {
    "https://"@ + region + ".console.aws.amazon.com/iam/home?region="@ + region + "#/roles/details/"@ + role
        + "/editPolicy/"@ + policy + "?step=addPermissions"@
}

/// The console address of the editor of a role's policy.
pub fn console_url_role_policy(region: &str, role_name: &str, policy_name: &str) -> (r: String)
    ensures
        r@ == role_policy_address(region@, role_name@, policy_name@),
{
    let mut s = String::from_str("https://");
    s.append(region);
    s.append(".console.aws.amazon.com/iam/home?region=");
    s.append(region);
    s.append("#/roles/details/");
    s.append(role_name);
    s.append("/editPolicy/");
    s.append(policy_name);
    s.append("?step=addPermissions");
    s
}

/// The console address of the IAM groups of `region`.
pub open spec fn groups_address(region: Seq<char>) -> Seq<char> {
    "https://"@ + region + ".console.aws.amazon.com/iam/home?region="@ + region + "#/groups"@
}

/// The console address of the IAM groups of `region`.
pub fn console_url_groups(region: &str) -> (r: String)
    ensures
        r@ == groups_address(region@),
{
    let mut s = String::from_str("https://");
    s.append(region);
    s.append(".console.aws.amazon.com/iam/home?region=");
    s.append(region);
    s.append("#/groups");
    s
}

/// The column keys and default labels that `init` lays down, in order.
pub open spec fn default_labels() -> (Seq<Seq<char>>, Seq<Seq<char>>) {
    (
        seq!["column.iam.user.user_name"@, "column.iam.user.path"@, "column.iam.user.groups"@, "column.iam.user.last_activity"@, "column.iam.user.mfa"@, "column.iam.user.password_age"@, "column.iam.user.console_last_sign_in"@, "column.iam.user.access_key_id"@, "column.iam.user.active_key_age"@, "column.iam.user.access_key_last_used"@, "column.iam.user.arn"@, "column.iam.user.creation_time"@, "column.iam.user.console_access"@, "column.iam.user.signing_certs"@, "column.iam.group.group_name"@, "column.iam.group.path"@, "column.iam.group.users"@, "column.iam.group.permissions"@, "column.iam.group.creation_time"@, "column.iam.role.role_name"@, "column.iam.role.path"@, "column.iam.role.trusted_entities"@, "column.iam.role.last_activity"@, "column.iam.role.arn"@, "column.iam.role.creation_time"@, "column.iam.role.description"@, "column.iam.role.max_session_duration"@],
        seq!["User name"@, "Path"@, "Groups"@, "Last activity"@, "MFA"@, "Password age"@, "Console last sign-in"@, "Access key ID"@, "Active key age"@, "Access key last used"@, "ARN"@, "Creation time"@, "Console access"@, "Signing certificates"@, "Group name"@, "Path"@, "Users"@, "Permissions"@, "Creation time"@, "Role name"@, "Path"@, "Trusted entities"@, "Last activity"@, "ARN"@, "Creation time"@, "Description"@, "Max session duration"@],
    )
}

/// Gives the user, group and role columns their default labels, unless they already have a translation.
pub fn init(tr: &mut Translations)
    ensures
        forall|k: Seq<char>| #[trigger] lookup(final(tr).entries@, k) == with_defaults(
            lookup(old(tr).entries@, k), default_labels().0, default_labels().1, k),
{
    let keys: Vec<ColumnId> = vec!["column.iam.user.user_name", "column.iam.user.path", "column.iam.user.groups", "column.iam.user.last_activity", "column.iam.user.mfa", "column.iam.user.password_age", "column.iam.user.console_last_sign_in", "column.iam.user.access_key_id", "column.iam.user.active_key_age", "column.iam.user.access_key_last_used", "column.iam.user.arn", "column.iam.user.creation_time", "column.iam.user.console_access", "column.iam.user.signing_certs", "column.iam.group.group_name", "column.iam.group.path", "column.iam.group.users", "column.iam.group.permissions", "column.iam.group.creation_time", "column.iam.role.role_name", "column.iam.role.path", "column.iam.role.trusted_entities", "column.iam.role.last_activity", "column.iam.role.arn", "column.iam.role.creation_time", "column.iam.role.description", "column.iam.role.max_session_duration"];
    let labels: Vec<&'static str> = vec!["User name", "Path", "Groups", "Last activity", "MFA", "Password age", "Console last sign-in", "Access key ID", "Active key age", "Access key last used", "ARN", "Creation time", "Console access", "Signing certificates", "Group name", "Path", "Users", "Permissions", "Creation time", "Role name", "Path", "Trusted entities", "Last activity", "ARN", "Creation time", "Description", "Max session duration"];
    assert(keys@.map_values(|s: &str| s@) =~= default_labels().0);
    assert(labels@.map_values(|s: &str| s@) =~= default_labels().1);
    tr.set_defaults(&keys, &labels);
}

/// A column of the user table.
#[derive(Clone, Copy, Debug, PartialEq, Eq, Structural)]
pub enum UserColumn {
    UserName,
    Path,
    Groups,
    LastActivity,
    Mfa,
    PasswordAge,
    ConsoleLastSignIn,
    AccessKeyId,
    ActiveKeyAge,
    AccessKeyLastUsed,
    Arn,
    CreationTime,
    ConsoleAccess,
    SigningCerts,
}

impl UserColumn {
    /// The translation key of the column.
    pub open spec fn key(self) -> Seq<char> {
        match self {
            UserColumn::UserName => "column.iam.user.user_name"@,
            UserColumn::Path => "column.iam.user.path"@,
            UserColumn::Groups => "column.iam.user.groups"@,
            UserColumn::LastActivity => "column.iam.user.last_activity"@,
            UserColumn::Mfa => "column.iam.user.mfa"@,
            UserColumn::PasswordAge => "column.iam.user.password_age"@,
            UserColumn::ConsoleLastSignIn => "column.iam.user.console_last_sign_in"@,
            UserColumn::AccessKeyId => "column.iam.user.access_key_id"@,
            UserColumn::ActiveKeyAge => "column.iam.user.active_key_age"@,
            UserColumn::AccessKeyLastUsed => "column.iam.user.access_key_last_used"@,
            UserColumn::Arn => "column.iam.user.arn"@,
            UserColumn::CreationTime => "column.iam.user.creation_time"@,
            UserColumn::ConsoleAccess => "column.iam.user.console_access"@,
            UserColumn::SigningCerts => "column.iam.user.signing_certs"@,
        }
    }

    /// The label of the column when no translation replaces it.
    pub open spec fn default_label(self) -> Seq<char> {
        match self {
            UserColumn::UserName => "User name"@,
            UserColumn::Path => "Path"@,
            UserColumn::Groups => "Groups"@,
            UserColumn::LastActivity => "Last activity"@,
            UserColumn::Mfa => "MFA"@,
            UserColumn::PasswordAge => "Password age"@,
            UserColumn::ConsoleLastSignIn => "Console last sign-in"@,
            UserColumn::AccessKeyId => "Access key ID"@,
            UserColumn::ActiveKeyAge => "Active key age"@,
            UserColumn::AccessKeyLastUsed => "Access key last used"@,
            UserColumn::Arn => "ARN"@,
            UserColumn::CreationTime => "Creation time"@,
            UserColumn::ConsoleAccess => "Console access"@,
            UserColumn::SigningCerts => "Signing certificates"@,
        }
    }

    /// The column whose key is `id`, if any.
    pub open spec fn with_key(id: Seq<char>) -> Option<Self> {
        if id == "column.iam.user.user_name"@ {
            Some(UserColumn::UserName)
        } else if id == "column.iam.user.path"@ {
            Some(UserColumn::Path)
        } else if id == "column.iam.user.groups"@ {
            Some(UserColumn::Groups)
        } else if id == "column.iam.user.last_activity"@ {
            Some(UserColumn::LastActivity)
        } else if id == "column.iam.user.mfa"@ {
            Some(UserColumn::Mfa)
        } else if id == "column.iam.user.password_age"@ {
            Some(UserColumn::PasswordAge)
        } else if id == "column.iam.user.console_last_sign_in"@ {
            Some(UserColumn::ConsoleLastSignIn)
        } else if id == "column.iam.user.access_key_id"@ {
            Some(UserColumn::AccessKeyId)
        } else if id == "column.iam.user.active_key_age"@ {
            Some(UserColumn::ActiveKeyAge)
        } else if id == "column.iam.user.access_key_last_used"@ {
            Some(UserColumn::AccessKeyLastUsed)
        } else if id == "column.iam.user.arn"@ {
            Some(UserColumn::Arn)
        } else if id == "column.iam.user.creation_time"@ {
            Some(UserColumn::CreationTime)
        } else if id == "column.iam.user.console_access"@ {
            Some(UserColumn::ConsoleAccess)
        } else if id == "column.iam.user.signing_certs"@ {
            Some(UserColumn::SigningCerts)
        } else {
            None
        }
    }

    /// Reading a column back from its key gives the column: no two columns
    /// share a key.
    pub proof fn lemma_key_roundtrip(c: Self)
        ensures
            Self::with_key(c.key()) == Some(c),
    {
        reveal_strlit("column.iam.user.user_name");
        reveal_strlit("column.iam.user.path");
        reveal_strlit("column.iam.user.groups");
        reveal_strlit("column.iam.user.last_activity");
        reveal_strlit("column.iam.user.mfa");
        reveal_strlit("column.iam.user.password_age");
        reveal_strlit("column.iam.user.console_last_sign_in");
        reveal_strlit("column.iam.user.access_key_id");
        reveal_strlit("column.iam.user.active_key_age");
        reveal_strlit("column.iam.user.access_key_last_used");
        reveal_strlit("column.iam.user.arn");
        reveal_strlit("column.iam.user.creation_time");
        reveal_strlit("column.iam.user.console_access");
        reveal_strlit("column.iam.user.signing_certs");
        assert("column.iam.user.user_name"@.len() == 25);
        assert("column.iam.user.path"@.len() == 20);
        assert("column.iam.user.groups"@.len() == 22);
        assert("column.iam.user.last_activity"@.len() == 29);
        assert("column.iam.user.mfa"@.len() == 19);
        assert("column.iam.user.password_age"@.len() == 28);
        assert("column.iam.user.console_last_sign_in"@.len() == 36);
        assert("column.iam.user.access_key_id"@.len() == 29);
        assert("column.iam.user.active_key_age"@.len() == 30);
        assert("column.iam.user.access_key_last_used"@.len() == 36);
        assert("column.iam.user.arn"@.len() == 19);
        assert("column.iam.user.creation_time"@.len() == 29);
        assert("column.iam.user.console_access"@.len() == 30);
        assert("column.iam.user.signing_certs"@.len() == 29);
        assert("column.iam.user.access_key_id"@[16] != "column.iam.user.last_activity"@[16]);
        assert("column.iam.user.access_key_last_used"@[16] != "column.iam.user.console_last_sign_in"@[16]);
        assert("column.iam.user.arn"@[16] != "column.iam.user.mfa"@[16]);
        assert("column.iam.user.creation_time"@[16] != "column.iam.user.last_activity"@[16]);
        assert("column.iam.user.creation_time"@[16] != "column.iam.user.access_key_id"@[16]);
        assert("column.iam.user.console_access"@[16] != "column.iam.user.active_key_age"@[16]);
        assert("column.iam.user.signing_certs"@[16] != "column.iam.user.last_activity"@[16]);
        assert("column.iam.user.signing_certs"@[16] != "column.iam.user.access_key_id"@[16]);
        assert("column.iam.user.signing_certs"@[16] != "column.iam.user.creation_time"@[16]);
    }

    /// Every column, in display order.
    pub open spec fn every() -> Seq<Self> {
        seq![UserColumn::UserName, UserColumn::Path, UserColumn::Groups, UserColumn::LastActivity, UserColumn::Mfa, UserColumn::PasswordAge, UserColumn::ConsoleLastSignIn, UserColumn::AccessKeyId, UserColumn::ActiveKeyAge, UserColumn::AccessKeyLastUsed, UserColumn::Arn, UserColumn::CreationTime, UserColumn::ConsoleAccess, UserColumn::SigningCerts]
    }

    /// The translation key of the column.
    pub fn id(&self) -> (r: ColumnId)
        ensures
            r@ == self.key(),
    {
        match self {
            UserColumn::UserName => "column.iam.user.user_name",
            UserColumn::Path => "column.iam.user.path",
            UserColumn::Groups => "column.iam.user.groups",
            UserColumn::LastActivity => "column.iam.user.last_activity",
            UserColumn::Mfa => "column.iam.user.mfa",
            UserColumn::PasswordAge => "column.iam.user.password_age",
            UserColumn::ConsoleLastSignIn => "column.iam.user.console_last_sign_in",
            UserColumn::AccessKeyId => "column.iam.user.access_key_id",
            UserColumn::ActiveKeyAge => "column.iam.user.active_key_age",
            UserColumn::AccessKeyLastUsed => "column.iam.user.access_key_last_used",
            UserColumn::Arn => "column.iam.user.arn",
            UserColumn::CreationTime => "column.iam.user.creation_time",
            UserColumn::ConsoleAccess => "column.iam.user.console_access",
            UserColumn::SigningCerts => "column.iam.user.signing_certs",
        }
    }

    /// The label of the column when no translation replaces it.
    pub fn default_name(&self) -> (r: &'static str)
        ensures
            r@ == self.default_label(),
    {
        match self {
            UserColumn::UserName => "User name",
            UserColumn::Path => "Path",
            UserColumn::Groups => "Groups",
            UserColumn::LastActivity => "Last activity",
            UserColumn::Mfa => "MFA",
            UserColumn::PasswordAge => "Password age",
            UserColumn::ConsoleLastSignIn => "Console last sign-in",
            UserColumn::AccessKeyId => "Access key ID",
            UserColumn::ActiveKeyAge => "Active key age",
            UserColumn::AccessKeyLastUsed => "Access key last used",
            UserColumn::Arn => "ARN",
            UserColumn::CreationTime => "Creation time",
            UserColumn::ConsoleAccess => "Console access",
            UserColumn::SigningCerts => "Signing certificates",
        }
    }

    /// The label of the column: its translation, else its default label.
    pub fn name(&self, tr: &Translations) -> (r: String)
        ensures
            r@ == translated_label(tr.entries@, self.key(), self.default_label()),
    {
        tr.translate_column(self.id(), self.default_name())
    }

    /// The column whose key is `id`, if any.
    pub fn from_id(id: &str) -> (r: Option<Self>)
        ensures
            r == Self::with_key(id@),
    {
        if str_eq(id, "column.iam.user.user_name") {
            Some(UserColumn::UserName)
        } else if str_eq(id, "column.iam.user.path") {
            Some(UserColumn::Path)
        } else if str_eq(id, "column.iam.user.groups") {
            Some(UserColumn::Groups)
        } else if str_eq(id, "column.iam.user.last_activity") {
            Some(UserColumn::LastActivity)
        } else if str_eq(id, "column.iam.user.mfa") {
            Some(UserColumn::Mfa)
        } else if str_eq(id, "column.iam.user.password_age") {
            Some(UserColumn::PasswordAge)
        } else if str_eq(id, "column.iam.user.console_last_sign_in") {
            Some(UserColumn::ConsoleLastSignIn)
        } else if str_eq(id, "column.iam.user.access_key_id") {
            Some(UserColumn::AccessKeyId)
        } else if str_eq(id, "column.iam.user.active_key_age") {
            Some(UserColumn::ActiveKeyAge)
        } else if str_eq(id, "column.iam.user.access_key_last_used") {
            Some(UserColumn::AccessKeyLastUsed)
        } else if str_eq(id, "column.iam.user.arn") {
            Some(UserColumn::Arn)
        } else if str_eq(id, "column.iam.user.creation_time") {
            Some(UserColumn::CreationTime)
        } else if str_eq(id, "column.iam.user.console_access") {
            Some(UserColumn::ConsoleAccess)
        } else if str_eq(id, "column.iam.user.signing_certs") {
            Some(UserColumn::SigningCerts)
        } else {
            None
        }
    }

    /// Every column, in display order.
    pub fn all() -> (r: [Self; 14])
        ensures
            r@ == Self::every(),
    {
        let r = [UserColumn::UserName, UserColumn::Path, UserColumn::Groups, UserColumn::LastActivity, UserColumn::Mfa, UserColumn::PasswordAge, UserColumn::ConsoleLastSignIn, UserColumn::AccessKeyId, UserColumn::ActiveKeyAge, UserColumn::AccessKeyLastUsed, UserColumn::Arn, UserColumn::CreationTime, UserColumn::ConsoleAccess, UserColumn::SigningCerts];
        assert(r@ =~= Self::every());
        r
    }

    /// The keys of every column, in display order.
    pub fn ids() -> (r: Vec<ColumnId>)
        ensures
            r@.len() == Self::every().len(),
            forall|i: int| 0 <= i < r@.len() ==> (#[trigger] r@[i])@ == Self::every()[i].key(),
    {
        let r: Vec<ColumnId> = vec!["column.iam.user.user_name", "column.iam.user.path", "column.iam.user.groups", "column.iam.user.last_activity", "column.iam.user.mfa", "column.iam.user.password_age", "column.iam.user.console_last_sign_in", "column.iam.user.access_key_id", "column.iam.user.active_key_age", "column.iam.user.access_key_last_used", "column.iam.user.arn", "column.iam.user.creation_time", "column.iam.user.console_access", "column.iam.user.signing_certs"];
        assert forall|i: int| 0 <= i < r@.len() implies (#[trigger] r@[i])@ == Self::every()[i].key() by {
            assert(r@ =~= seq!["column.iam.user.user_name", "column.iam.user.path", "column.iam.user.groups", "column.iam.user.last_activity", "column.iam.user.mfa", "column.iam.user.password_age", "column.iam.user.console_last_sign_in", "column.iam.user.access_key_id", "column.iam.user.active_key_age", "column.iam.user.access_key_last_used", "column.iam.user.arn", "column.iam.user.creation_time", "column.iam.user.console_access", "column.iam.user.signing_certs"]);
        }
        r
    }

}

impl UserColumn {
    /// The keys of the columns shown until the user picks others.
    pub fn visible() -> (r: Vec<ColumnId>)
        ensures
            r@.map_values(|s: &str| s@) == seq!["column.iam.user.user_name"@, "column.iam.user.path"@, "column.iam.user.groups"@, "column.iam.user.last_activity"@, "column.iam.user.mfa"@, "column.iam.user.password_age"@, "column.iam.user.console_last_sign_in"@, "column.iam.user.access_key_id"@, "column.iam.user.active_key_age"@, "column.iam.user.access_key_last_used"@, "column.iam.user.arn"@],
    {
        let r: Vec<ColumnId> = vec!["column.iam.user.user_name", "column.iam.user.path", "column.iam.user.groups", "column.iam.user.last_activity", "column.iam.user.mfa", "column.iam.user.password_age", "column.iam.user.console_last_sign_in", "column.iam.user.access_key_id", "column.iam.user.active_key_age", "column.iam.user.access_key_last_used", "column.iam.user.arn"];
        assert(r@.map_values(|s: &str| s@) =~= seq!["column.iam.user.user_name"@, "column.iam.user.path"@, "column.iam.user.groups"@, "column.iam.user.last_activity"@, "column.iam.user.mfa"@, "column.iam.user.password_age"@, "column.iam.user.console_last_sign_in"@, "column.iam.user.access_key_id"@, "column.iam.user.active_key_age"@, "column.iam.user.access_key_last_used"@, "column.iam.user.arn"@]);
        r
    }
}

/// A column of the group table.
#[derive(Clone, Copy, Debug, PartialEq, Eq, Structural)]
pub enum GroupColumn {
    GroupName,
    Path,
    Users,
    Permissions,
    CreationTime,
}

impl GroupColumn {
    /// The translation key of the column.
    pub open spec fn key(self) -> Seq<char> {
        match self {
            GroupColumn::GroupName => "column.iam.group.group_name"@,
            GroupColumn::Path => "column.iam.group.path"@,
            GroupColumn::Users => "column.iam.group.users"@,
            GroupColumn::Permissions => "column.iam.group.permissions"@,
            GroupColumn::CreationTime => "column.iam.group.creation_time"@,
        }
    }

    /// The label of the column when no translation replaces it.
    pub open spec fn default_label(self) -> Seq<char> {
        match self {
            GroupColumn::GroupName => "Group name"@,
            GroupColumn::Path => "Path"@,
            GroupColumn::Users => "Users"@,
            GroupColumn::Permissions => "Permissions"@,
            GroupColumn::CreationTime => "Creation time"@,
        }
    }

    /// The column whose key is `id`, if any.
    pub open spec fn with_key(id: Seq<char>) -> Option<Self> {
        if id == "column.iam.group.group_name"@ {
            Some(GroupColumn::GroupName)
        } else if id == "column.iam.group.path"@ {
            Some(GroupColumn::Path)
        } else if id == "column.iam.group.users"@ {
            Some(GroupColumn::Users)
        } else if id == "column.iam.group.permissions"@ {
            Some(GroupColumn::Permissions)
        } else if id == "column.iam.group.creation_time"@ {
            Some(GroupColumn::CreationTime)
        } else {
            None
        }
    }

    /// Reading a column back from its key gives the column: no two columns
    /// share a key.
    pub proof fn lemma_key_roundtrip(c: Self)
        ensures
            Self::with_key(c.key()) == Some(c),
    {
        reveal_strlit("column.iam.group.group_name");
        reveal_strlit("column.iam.group.path");
        reveal_strlit("column.iam.group.users");
        reveal_strlit("column.iam.group.permissions");
        reveal_strlit("column.iam.group.creation_time");
        assert("column.iam.group.group_name"@.len() == 27);
        assert("column.iam.group.path"@.len() == 21);
        assert("column.iam.group.users"@.len() == 22);
        assert("column.iam.group.permissions"@.len() == 28);
        assert("column.iam.group.creation_time"@.len() == 30);
    }

    /// Every column, in display order.
    pub open spec fn every() -> Seq<Self> {
        seq![GroupColumn::GroupName, GroupColumn::Path, GroupColumn::Users, GroupColumn::Permissions, GroupColumn::CreationTime]
    }

    /// The translation key of the column.
    pub fn id(&self) -> (r: ColumnId)
        ensures
            r@ == self.key(),
    {
        match self {
            GroupColumn::GroupName => "column.iam.group.group_name",
            GroupColumn::Path => "column.iam.group.path",
            GroupColumn::Users => "column.iam.group.users",
            GroupColumn::Permissions => "column.iam.group.permissions",
            GroupColumn::CreationTime => "column.iam.group.creation_time",
        }
    }

    /// The label of the column when no translation replaces it.
    pub fn default_name(&self) -> (r: &'static str)
        ensures
            r@ == self.default_label(),
    {
        match self {
            GroupColumn::GroupName => "Group name",
            GroupColumn::Path => "Path",
            GroupColumn::Users => "Users",
            GroupColumn::Permissions => "Permissions",
            GroupColumn::CreationTime => "Creation time",
        }
    }

    /// Every column, in display order.
    pub fn all() -> (r: [Self; 5])
        ensures
            r@ == Self::every(),
    {
        let r = [GroupColumn::GroupName, GroupColumn::Path, GroupColumn::Users, GroupColumn::Permissions, GroupColumn::CreationTime];
        assert(r@ =~= Self::every());
        r
    }

}

/// A column of the role table.
#[derive(Clone, Copy, Debug, PartialEq, Eq, Structural)]
pub enum RoleColumn {
    RoleName,
    Path,
    TrustedEntities,
    LastActivity,
    Arn,
    CreationTime,
    Description,
    MaxSessionDuration,
}

impl RoleColumn {
    /// The translation key of the column.
    pub open spec fn key(self) -> Seq<char> {
        match self {
            RoleColumn::RoleName => "column.iam.role.role_name"@,
            RoleColumn::Path => "column.iam.role.path"@,
            RoleColumn::TrustedEntities => "column.iam.role.trusted_entities"@,
            RoleColumn::LastActivity => "column.iam.role.last_activity"@,
            RoleColumn::Arn => "column.iam.role.arn"@,
            RoleColumn::CreationTime => "column.iam.role.creation_time"@,
            RoleColumn::Description => "column.iam.role.description"@,
            RoleColumn::MaxSessionDuration => "column.iam.role.max_session_duration"@,
        }
    }

    /// The label of the column when no translation replaces it.
    pub open spec fn default_label(self) -> Seq<char> {
        match self {
            RoleColumn::RoleName => "Role name"@,
            RoleColumn::Path => "Path"@,
            RoleColumn::TrustedEntities => "Trusted entities"@,
            RoleColumn::LastActivity => "Last activity"@,
            RoleColumn::Arn => "ARN"@,
            RoleColumn::CreationTime => "Creation time"@,
            RoleColumn::Description => "Description"@,
            RoleColumn::MaxSessionDuration => "Max session duration"@,
        }
    }

    /// The column whose key is `id`, if any.
    pub open spec fn with_key(id: Seq<char>) -> Option<Self> {
        if id == "column.iam.role.role_name"@ {
            Some(RoleColumn::RoleName)
        } else if id == "column.iam.role.path"@ {
            Some(RoleColumn::Path)
        } else if id == "column.iam.role.trusted_entities"@ {
            Some(RoleColumn::TrustedEntities)
        } else if id == "column.iam.role.last_activity"@ {
            Some(RoleColumn::LastActivity)
        } else if id == "column.iam.role.arn"@ {
            Some(RoleColumn::Arn)
        } else if id == "column.iam.role.creation_time"@ {
            Some(RoleColumn::CreationTime)
        } else if id == "column.iam.role.description"@ {
            Some(RoleColumn::Description)
        } else if id == "column.iam.role.max_session_duration"@ {
            Some(RoleColumn::MaxSessionDuration)
        } else {
            None
        }
    }

    /// Reading a column back from its key gives the column: no two columns
    /// share a key.
    pub proof fn lemma_key_roundtrip(c: Self)
        ensures
            Self::with_key(c.key()) == Some(c),
    {
        reveal_strlit("column.iam.role.role_name");
        reveal_strlit("column.iam.role.path");
        reveal_strlit("column.iam.role.trusted_entities");
        reveal_strlit("column.iam.role.last_activity");
        reveal_strlit("column.iam.role.arn");
        reveal_strlit("column.iam.role.creation_time");
        reveal_strlit("column.iam.role.description");
        reveal_strlit("column.iam.role.max_session_duration");
        assert("column.iam.role.role_name"@.len() == 25);
        assert("column.iam.role.path"@.len() == 20);
        assert("column.iam.role.trusted_entities"@.len() == 32);
        assert("column.iam.role.last_activity"@.len() == 29);
        assert("column.iam.role.arn"@.len() == 19);
        assert("column.iam.role.creation_time"@.len() == 29);
        assert("column.iam.role.description"@.len() == 27);
        assert("column.iam.role.max_session_duration"@.len() == 36);
        assert("column.iam.role.creation_time"@[16] != "column.iam.role.last_activity"@[16]);
    }

    /// Every column, in display order.
    pub open spec fn every() -> Seq<Self> {
        seq![RoleColumn::RoleName, RoleColumn::Path, RoleColumn::TrustedEntities, RoleColumn::LastActivity, RoleColumn::Arn, RoleColumn::CreationTime, RoleColumn::Description, RoleColumn::MaxSessionDuration]
    }

    /// The translation key of the column.
    pub fn id(&self) -> (r: ColumnId)
        ensures
            r@ == self.key(),
    {
        match self {
            RoleColumn::RoleName => "column.iam.role.role_name",
            RoleColumn::Path => "column.iam.role.path",
            RoleColumn::TrustedEntities => "column.iam.role.trusted_entities",
            RoleColumn::LastActivity => "column.iam.role.last_activity",
            RoleColumn::Arn => "column.iam.role.arn",
            RoleColumn::CreationTime => "column.iam.role.creation_time",
            RoleColumn::Description => "column.iam.role.description",
            RoleColumn::MaxSessionDuration => "column.iam.role.max_session_duration",
        }
    }

    /// The label of the column when no translation replaces it.
    pub fn default_name(&self) -> (r: &'static str)
        ensures
            r@ == self.default_label(),
    {
        match self {
            RoleColumn::RoleName => "Role name",
            RoleColumn::Path => "Path",
            RoleColumn::TrustedEntities => "Trusted entities",
            RoleColumn::LastActivity => "Last activity",
            RoleColumn::Arn => "ARN",
            RoleColumn::CreationTime => "Creation time",
            RoleColumn::Description => "Description",
            RoleColumn::MaxSessionDuration => "Max session duration",
        }
    }

    /// The label of the column: its translation, else its default label.
    pub fn name(&self, tr: &Translations) -> (r: String)
        ensures
            r@ == translated_label(tr.entries@, self.key(), self.default_label()),
    {
        tr.translate_column(self.id(), self.default_name())
    }

    /// The column whose key is `id`, if any.
    pub fn from_id(id: &str) -> (r: Option<Self>)
        ensures
            r == Self::with_key(id@),
    {
        if str_eq(id, "column.iam.role.role_name") {
            Some(RoleColumn::RoleName)
        } else if str_eq(id, "column.iam.role.path") {
            Some(RoleColumn::Path)
        } else if str_eq(id, "column.iam.role.trusted_entities") {
            Some(RoleColumn::TrustedEntities)
        } else if str_eq(id, "column.iam.role.last_activity") {
            Some(RoleColumn::LastActivity)
        } else if str_eq(id, "column.iam.role.arn") {
            Some(RoleColumn::Arn)
        } else if str_eq(id, "column.iam.role.creation_time") {
            Some(RoleColumn::CreationTime)
        } else if str_eq(id, "column.iam.role.description") {
            Some(RoleColumn::Description)
        } else if str_eq(id, "column.iam.role.max_session_duration") {
            Some(RoleColumn::MaxSessionDuration)
        } else {
            None
        }
    }

    /// Every column, in display order.
    pub fn all() -> (r: [Self; 8])
        ensures
            r@ == Self::every(),
    {
        let r = [RoleColumn::RoleName, RoleColumn::Path, RoleColumn::TrustedEntities, RoleColumn::LastActivity, RoleColumn::Arn, RoleColumn::CreationTime, RoleColumn::Description, RoleColumn::MaxSessionDuration];
        assert(r@ =~= Self::every());
        r
    }

    /// The keys of every column, in display order.
    pub fn ids() -> (r: Vec<ColumnId>)
        ensures
            r@.len() == Self::every().len(),
            forall|i: int| 0 <= i < r@.len() ==> (#[trigger] r@[i])@ == Self::every()[i].key(),
    {
        let r: Vec<ColumnId> = vec!["column.iam.role.role_name", "column.iam.role.path", "column.iam.role.trusted_entities", "column.iam.role.last_activity", "column.iam.role.arn", "column.iam.role.creation_time", "column.iam.role.description", "column.iam.role.max_session_duration"];
        assert forall|i: int| 0 <= i < r@.len() implies (#[trigger] r@[i])@ == Self::every()[i].key() by {
            assert(r@ =~= seq!["column.iam.role.role_name", "column.iam.role.path", "column.iam.role.trusted_entities", "column.iam.role.last_activity", "column.iam.role.arn", "column.iam.role.creation_time", "column.iam.role.description", "column.iam.role.max_session_duration"]);
        }
        r
    }

}

impl RoleColumn {
    /// The keys of the columns shown until the user picks others.
    pub fn visible() -> (r: Vec<ColumnId>)
        ensures
            r@.map_values(|s: &str| s@) == seq!["column.iam.role.role_name"@, "column.iam.role.trusted_entities"@, "column.iam.role.creation_time"@],
    {
        let r: Vec<ColumnId> = vec!["column.iam.role.role_name", "column.iam.role.trusted_entities", "column.iam.role.creation_time"];
        assert(r@.map_values(|s: &str| s@) =~= seq!["column.iam.role.role_name"@, "column.iam.role.trusted_entities"@, "column.iam.role.creation_time"@]);
        r
    }
}

/// Tabs of an open user, in display order.
#[derive(Clone, Copy, Debug, PartialEq, Eq, Structural)]
pub enum UserTab {
    Permissions,
    Groups,
    Tags,
    SecurityCredentials,
    LastAccessed,
}

impl UserTab {
    /// The tab after this one, wrapping around.
    pub open spec fn following(self) -> UserTab {
        match self {
            UserTab::Permissions => UserTab::Groups,
            UserTab::Groups => UserTab::Tags,
            UserTab::Tags => UserTab::SecurityCredentials,
            UserTab::SecurityCredentials => UserTab::LastAccessed,
            UserTab::LastAccessed => UserTab::Permissions,
        }
    }

    /// The tab before this one, wrapping around.
    pub open spec fn preceding(self) -> UserTab {
        match self {
            UserTab::Permissions => UserTab::LastAccessed,
            UserTab::Groups => UserTab::Permissions,
            UserTab::Tags => UserTab::Groups,
            UserTab::SecurityCredentials => UserTab::Tags,
            UserTab::LastAccessed => UserTab::SecurityCredentials,
        }
    }

    /// The tab after this one, wrapping around.
    pub fn next(&self) -> (r: UserTab)
        ensures
            r == self.following(),
    {
        match self {
            UserTab::Permissions => UserTab::Groups,
            UserTab::Groups => UserTab::Tags,
            UserTab::Tags => UserTab::SecurityCredentials,
            UserTab::SecurityCredentials => UserTab::LastAccessed,
            UserTab::LastAccessed => UserTab::Permissions,
        }
    }

    /// The tab before this one, wrapping around.
    pub fn prev(&self) -> (r: UserTab)
        ensures
            r == self.preceding(),
    {
        match self {
            UserTab::Permissions => UserTab::LastAccessed,
            UserTab::Groups => UserTab::Permissions,
            UserTab::Tags => UserTab::Groups,
            UserTab::SecurityCredentials => UserTab::Tags,
            UserTab::LastAccessed => UserTab::SecurityCredentials,
        }
    }

    /// The section of the console page that shows the tab.
    pub open spec fn section(self) -> Seq<char> {
        match self {
            UserTab::Permissions => "permissions"@,
            UserTab::Groups => "groups"@,
            UserTab::Tags => "tags"@,
            UserTab::SecurityCredentials => "security_credentials"@,
            UserTab::LastAccessed => "access_advisor"@,
        }
    }

    /// The section of the console page that shows the tab.
    pub fn section_str(&self) -> (r: &'static str)
        ensures
            r@ == self.section(),
    {
        match self {
            UserTab::Permissions => "permissions",
            UserTab::Groups => "groups",
            UserTab::Tags => "tags",
            UserTab::SecurityCredentials => "security_credentials",
            UserTab::LastAccessed => "access_advisor",
        }
    }


    /// Going forward one and back one (or back, then forward) returns to
    /// where it started.
    pub proof fn lemma_cycle(t: UserTab)
        ensures
            t.following().preceding() == t,
            t.preceding().following() == t,
            <UserTab as CyclicEnum>::all_values().no_duplicates(),
            t.following() == cyclic_next(<UserTab as CyclicEnum>::all_values(), t),
            t.preceding() == cyclic_prev(<UserTab as CyclicEnum>::all_values(), t),
    {
        let all = <UserTab as CyclicEnum>::all_values();
        assert(all.no_duplicates()) by {
            assert forall|a: int, b: int| 0 <= a < all.len() && 0 <= b < all.len() && a != b implies all[a] != all[b] by {
            }
        }
        match t {
            UserTab::Permissions => lemma_cyclic_law(all, 0),
            UserTab::Groups => lemma_cyclic_law(all, 1),
            UserTab::Tags => lemma_cyclic_law(all, 2),
            UserTab::SecurityCredentials => lemma_cyclic_law(all, 3),
            UserTab::LastAccessed => lemma_cyclic_law(all, 4),
        }
    }
}
/// Tabs of an open role, in display order.
#[derive(Clone, Copy, Debug, PartialEq, Eq, Structural)]
pub enum RoleTab {
    Permissions,
    TrustRelationships,
    Tags,
    LastAccessed,
    RevokeSessions,
}

impl RoleTab {
    /// The tab after this one, wrapping around.
    pub open spec fn following(self) -> RoleTab {
        match self {
            RoleTab::Permissions => RoleTab::TrustRelationships,
            RoleTab::TrustRelationships => RoleTab::Tags,
            RoleTab::Tags => RoleTab::LastAccessed,
            RoleTab::LastAccessed => RoleTab::RevokeSessions,
            RoleTab::RevokeSessions => RoleTab::Permissions,
        }
    }

    /// The tab before this one, wrapping around.
    pub open spec fn preceding(self) -> RoleTab {
        match self {
            RoleTab::Permissions => RoleTab::RevokeSessions,
            RoleTab::TrustRelationships => RoleTab::Permissions,
            RoleTab::Tags => RoleTab::TrustRelationships,
            RoleTab::LastAccessed => RoleTab::Tags,
            RoleTab::RevokeSessions => RoleTab::LastAccessed,
        }
    }

    /// The tab after this one, wrapping around.
    pub fn next(&self) -> (r: RoleTab)
        ensures
            r == self.following(),
    {
        match self {
            RoleTab::Permissions => RoleTab::TrustRelationships,
            RoleTab::TrustRelationships => RoleTab::Tags,
            RoleTab::Tags => RoleTab::LastAccessed,
            RoleTab::LastAccessed => RoleTab::RevokeSessions,
            RoleTab::RevokeSessions => RoleTab::Permissions,
        }
    }

    /// The tab before this one, wrapping around.
    pub fn prev(&self) -> (r: RoleTab)
        ensures
            r == self.preceding(),
    {
        match self {
            RoleTab::Permissions => RoleTab::RevokeSessions,
            RoleTab::TrustRelationships => RoleTab::Permissions,
            RoleTab::Tags => RoleTab::TrustRelationships,
            RoleTab::LastAccessed => RoleTab::Tags,
            RoleTab::RevokeSessions => RoleTab::LastAccessed,
        }
    }

    /// The section of the console page that shows the tab.
    pub open spec fn section(self) -> Seq<char> {
        match self {
            RoleTab::Permissions => "permissions"@,
            RoleTab::TrustRelationships => "trust_relationships"@,
            RoleTab::Tags => "tags"@,
            RoleTab::LastAccessed => "access_advisor"@,
            RoleTab::RevokeSessions => "revoke_sessions"@,
        }
    }

    /// The section of the console page that shows the tab.
    pub fn section_str(&self) -> (r: &'static str)
        ensures
            r@ == self.section(),
    {
        match self {
            RoleTab::Permissions => "permissions",
            RoleTab::TrustRelationships => "trust_relationships",
            RoleTab::Tags => "tags",
            RoleTab::LastAccessed => "access_advisor",
            RoleTab::RevokeSessions => "revoke_sessions",
        }
    }


    /// Going forward one and back one (or back, then forward) returns to
    /// where it started.
    pub proof fn lemma_cycle(t: RoleTab)
        ensures
            t.following().preceding() == t,
            t.preceding().following() == t,
            <RoleTab as CyclicEnum>::all_values().no_duplicates(),
            t.following() == cyclic_next(<RoleTab as CyclicEnum>::all_values(), t),
            t.preceding() == cyclic_prev(<RoleTab as CyclicEnum>::all_values(), t),
    {
        let all = <RoleTab as CyclicEnum>::all_values();
        assert(all.no_duplicates()) by {
            assert forall|a: int, b: int| 0 <= a < all.len() && 0 <= b < all.len() && a != b implies all[a] != all[b] by {
            }
        }
        match t {
            RoleTab::Permissions => lemma_cyclic_law(all, 0),
            RoleTab::TrustRelationships => lemma_cyclic_law(all, 1),
            RoleTab::Tags => lemma_cyclic_law(all, 2),
            RoleTab::LastAccessed => lemma_cyclic_law(all, 3),
            RoleTab::RevokeSessions => lemma_cyclic_law(all, 4),
        }
    }
}
/// Tabs of an open group, in display order.
#[derive(Clone, Copy, Debug, PartialEq, Eq, Structural)]
pub enum GroupTab {
    Users,
    Permissions,
    AccessAdvisor,
}

impl GroupTab {
    /// The tab after this one, wrapping around.
    pub open spec fn following(self) -> GroupTab {
        match self {
            GroupTab::Users => GroupTab::Permissions,
            GroupTab::Permissions => GroupTab::AccessAdvisor,
            GroupTab::AccessAdvisor => GroupTab::Users,
        }
    }

    /// The tab before this one, wrapping around.
    pub open spec fn preceding(self) -> GroupTab {
        match self {
            GroupTab::Users => GroupTab::AccessAdvisor,
            GroupTab::Permissions => GroupTab::Users,
            GroupTab::AccessAdvisor => GroupTab::Permissions,
        }
    }

    /// The tab after this one, wrapping around.
    pub fn next(&self) -> (r: GroupTab)
        ensures
            r == self.following(),
    {
        match self {
            GroupTab::Users => GroupTab::Permissions,
            GroupTab::Permissions => GroupTab::AccessAdvisor,
            GroupTab::AccessAdvisor => GroupTab::Users,
        }
    }

    /// The tab before this one, wrapping around.
    pub fn prev(&self) -> (r: GroupTab)
        ensures
            r == self.preceding(),
    {
        match self {
            GroupTab::Users => GroupTab::AccessAdvisor,
            GroupTab::Permissions => GroupTab::Users,
            GroupTab::AccessAdvisor => GroupTab::Permissions,
        }
    }


    /// Going forward one and back one (or back, then forward) returns to
    /// where it started.
    pub proof fn lemma_cycle(t: GroupTab)
        ensures
            t.following().preceding() == t,
            t.preceding().following() == t,
            <GroupTab as CyclicEnum>::all_values().no_duplicates(),
            t.following() == cyclic_next(<GroupTab as CyclicEnum>::all_values(), t),
            t.preceding() == cyclic_prev(<GroupTab as CyclicEnum>::all_values(), t),
    {
        let all = <GroupTab as CyclicEnum>::all_values();
        assert(all.no_duplicates()) by {
            assert forall|a: int, b: int| 0 <= a < all.len() && 0 <= b < all.len() && a != b implies all[a] != all[b] by {
            }
        }
        match t {
            GroupTab::Users => lemma_cyclic_law(all, 0),
            GroupTab::Permissions => lemma_cyclic_law(all, 1),
            GroupTab::AccessAdvisor => lemma_cyclic_law(all, 2),
        }
    }
}
/// Which services the last-accessed table lists.
#[derive(Clone, Copy, Debug, PartialEq, Eq, Structural)]
pub enum HistoryFilter {
    AllServices,
    ServicesAccessed,
    ServicesNotAccessed,
}

impl HistoryFilter {
    /// The tab after this one, wrapping around.
    pub open spec fn following(self) -> HistoryFilter {
        match self {
            HistoryFilter::AllServices => HistoryFilter::ServicesAccessed,
            HistoryFilter::ServicesAccessed => HistoryFilter::ServicesNotAccessed,
            HistoryFilter::ServicesNotAccessed => HistoryFilter::AllServices,
        }
    }

    /// The tab before this one, wrapping around.
    pub open spec fn preceding(self) -> HistoryFilter {
        match self {
            HistoryFilter::AllServices => HistoryFilter::ServicesNotAccessed,
            HistoryFilter::ServicesAccessed => HistoryFilter::AllServices,
            HistoryFilter::ServicesNotAccessed => HistoryFilter::ServicesAccessed,
        }
    }

    /// The tab after this one, wrapping around.
    pub fn next(&self) -> (r: HistoryFilter)
        ensures
            r == self.following(),
    {
        match self {
            HistoryFilter::AllServices => HistoryFilter::ServicesAccessed,
            HistoryFilter::ServicesAccessed => HistoryFilter::ServicesNotAccessed,
            HistoryFilter::ServicesNotAccessed => HistoryFilter::AllServices,
        }
    }

    /// The tab before this one, wrapping around.
    pub fn prev(&self) -> (r: HistoryFilter)
        ensures
            r == self.preceding(),
    {
        match self {
            HistoryFilter::AllServices => HistoryFilter::ServicesNotAccessed,
            HistoryFilter::ServicesAccessed => HistoryFilter::AllServices,
            HistoryFilter::ServicesNotAccessed => HistoryFilter::ServicesAccessed,
        }
    }


    /// Going forward one and back one (or back, then forward) returns to
    /// where it started.
    pub proof fn lemma_cycle(t: HistoryFilter)
        ensures
            t.following().preceding() == t,
            t.preceding().following() == t,
            <HistoryFilter as CyclicEnum>::all_values().no_duplicates(),
            t.following() == cyclic_next(<HistoryFilter as CyclicEnum>::all_values(), t),
            t.preceding() == cyclic_prev(<HistoryFilter as CyclicEnum>::all_values(), t),
    {
        let all = <HistoryFilter as CyclicEnum>::all_values();
        assert(all.no_duplicates()) by {
            assert forall|a: int, b: int| 0 <= a < all.len() && 0 <= b < all.len() && a != b implies all[a] != all[b] by {
            }
        }
        match t {
            HistoryFilter::AllServices => lemma_cyclic_law(all, 0),
            HistoryFilter::ServicesAccessed => lemma_cyclic_law(all, 1),
            HistoryFilter::ServicesNotAccessed => lemma_cyclic_law(all, 2),
        }
    }
}

/// The policy type dropdown of a policy table's filter bar.
pub open spec fn policy_type_dropdown() -> InputFocus {
    InputFocus::Dropdown("PolicyType")
}

/// The history dropdown of the last-accessed table's filter bar.
pub open spec fn history_filter_focus() -> InputFocus {
    InputFocus::Dropdown("HistoryFilter")
}

/// The controls of a policy table's filter bar, in focus order.
pub open spec fn policy_filter_controls() -> Seq<InputFocus> {
    seq![InputFocus::Filter, policy_type_dropdown(), InputFocus::Pagination]
}

/// The controls of the last-accessed table's filter bar, in focus order.
pub open spec fn last_accessed_filter_controls() -> Seq<InputFocus> {
    seq![InputFocus::Filter, history_filter_focus(), InputFocus::Pagination]
}

/// The controls of a plain filter bar (users, roles, groups), in focus order.
pub open spec fn simple_filter_controls() -> Seq<InputFocus> {
    seq![InputFocus::Filter, InputFocus::Pagination]
}

/// The controls of a policy table's filter bar, in focus order.
pub fn policy_filter_control_list() -> (r: Vec<InputFocus>)
    ensures
        r@ == policy_filter_controls(),
{
    let r = vec![InputFocus::Filter, InputFocus::Dropdown("PolicyType"), InputFocus::Pagination];
    assert(r@ =~= policy_filter_controls());
    r
}

/// The controls of the last-accessed table's filter bar, in focus order.
pub fn last_accessed_filter_control_list() -> (r: Vec<InputFocus>)
    ensures
        r@ == last_accessed_filter_controls(),
{
    let r = vec![InputFocus::Filter, InputFocus::Dropdown("HistoryFilter"), InputFocus::Pagination];
    assert(r@ =~= last_accessed_filter_controls());
    r
}

/// The controls of a plain filter bar, in focus order.
pub fn simple_filter_control_list() -> (r: Vec<InputFocus>)
    ensures
        r@ == simple_filter_controls(),
{
    let r = vec![InputFocus::Filter, InputFocus::Pagination];
    assert(r@ =~= simple_filter_controls());
    r
}

/// State of the IAM views.
pub struct State {
    pub users: TableState<IamUser>,
    pub roles: TableState<IamRole>,
    pub groups: TableState<IamGroup>,
    pub policies: TableState<Policy>,
    pub tags: TableState<RoleTag>,
    pub user_tags: TableState<UserTag>,
    pub user_group_memberships: TableState<UserGroup>,
    pub group_users: TableState<GroupUser>,
    pub last_accessed_services: TableState<LastAccessedService>,
    pub current_user: Option<String>,
    pub current_role: Option<String>,
    pub current_group: Option<String>,
    pub current_policy: Option<String>,
    pub user_tab: UserTab,
    pub role_tab: RoleTab,
    pub group_tab: GroupTab,
    pub user_input_focus: InputFocus,
    pub role_input_focus: InputFocus,
    pub group_input_focus: InputFocus,
    pub policy_input_focus: InputFocus,
    pub last_accessed_input_focus: InputFocus,
    pub policy_type_filter: String,
    pub last_accessed_history_filter: HistoryFilter,
    pub policy_document: String,
    pub policy_scroll: usize,
    pub trust_policy_document: String,
    pub trust_policy_scroll: usize,
    pub revoke_sessions_scroll: usize,
}

/// A policy passes the policy filters: its name passes the text filter and its
/// type matches the type filter (`All types` lets every type through).
pub open spec fn policy_kept(s: State, p: Policy) -> bool {
    filter_keeps(s.policies.filter@, p.policy_name@)
        && (s.policy_type_filter@ == "All types"@ || p.policy_type@ == s.policy_type_filter@)
}

/// A service passes the last-accessed filters: its name passes the text filter
/// and the history filter lets it through.
pub open spec fn last_accessed_kept(s: State, l: LastAccessedService) -> bool {
    filter_keeps(s.last_accessed_services.filter@, l.service@) && match s.last_accessed_history_filter {
        HistoryFilter::AllServices => true,
        HistoryFilter::ServicesAccessed => l.last_accessed@ != "Not accessed in the tracking period"@,
        HistoryFilter::ServicesNotAccessed => l.last_accessed@ == "Not accessed in the tracking period"@,
    }
}

/// Indices of the users whose name passes the filter.
pub open spec fn filtered_user_rows(s: State) -> Seq<usize> {
    kept_indices(s.users.items@.len(), |k: int| filter_keeps(s.users.filter@, s.users.items@[k].user_name@))
}

/// Indices of the users whose name passes the filter.
pub fn filtered_iam_users(s: &State) -> (r: Vec<usize>)
    ensures
        r@ == filtered_user_rows(*s),
{
    let n = s.users.items.len();
    let mut out: Vec<usize> = Vec::new();
    let mut i: usize = 0;
    while i < n
        invariant
            n == s.users.items@.len(),
            i <= n,
            out@ == kept_indices(i as nat, |k: int| filter_keeps(s.users.filter@, s.users.items@[k].user_name@)),
        decreases n - i,
    {
        let it = &s.users.items[i];
        if filter_matches(s.users.filter.as_str(), it.user_name.as_str()) {
            out.push(i);
        }
        i = i + 1;
    }
    out
}

/// Indices of the roles whose name passes the filter.
pub open spec fn filtered_role_rows(s: State) -> Seq<usize> {
    kept_indices(s.roles.items@.len(), |k: int| filter_keeps(s.roles.filter@, s.roles.items@[k].role_name@))
}

/// Indices of the roles whose name passes the filter.
pub fn filtered_iam_roles(s: &State) -> (r: Vec<usize>)
    ensures
        r@ == filtered_role_rows(*s),
{
    let n = s.roles.items.len();
    let mut out: Vec<usize> = Vec::new();
    let mut i: usize = 0;
    while i < n
        invariant
            n == s.roles.items@.len(),
            i <= n,
            out@ == kept_indices(i as nat, |k: int| filter_keeps(s.roles.filter@, s.roles.items@[k].role_name@)),
        decreases n - i,
    {
        let it = &s.roles.items[i];
        if filter_matches(s.roles.filter.as_str(), it.role_name.as_str()) {
            out.push(i);
        }
        i = i + 1;
    }
    out
}

/// Indices of the groups whose name passes the filter.
pub open spec fn filtered_group_rows(s: State) -> Seq<usize> {
    kept_indices(s.groups.items@.len(), |k: int| filter_keeps(s.groups.filter@, s.groups.items@[k].group_name@))
}

/// Indices of the groups whose name passes the filter.
pub fn filtered_iam_groups(s: &State) -> (r: Vec<usize>)
    ensures
        r@ == filtered_group_rows(*s),
{
    let n = s.groups.items.len();
    let mut out: Vec<usize> = Vec::new();
    let mut i: usize = 0;
    while i < n
        invariant
            n == s.groups.items@.len(),
            i <= n,
            out@ == kept_indices(i as nat, |k: int| filter_keeps(s.groups.filter@, s.groups.items@[k].group_name@)),
        decreases n - i,
    {
        let it = &s.groups.items[i];
        if filter_matches(s.groups.filter.as_str(), it.group_name.as_str()) {
            out.push(i);
        }
        i = i + 1;
    }
    out
}

/// Indices of the users of the group whose name passes the filter.
pub open spec fn filtered_group_user_rows(s: State) -> Seq<usize> {
    kept_indices(s.group_users.items@.len(), |k: int| filter_keeps(s.group_users.filter@, s.group_users.items@[k].user_name@))
}

/// Indices of the users of the group whose name passes the filter.
pub fn filtered_group_users(s: &State) -> (r: Vec<usize>)
    ensures
        r@ == filtered_group_user_rows(*s),
{
    let n = s.group_users.items.len();
    let mut out: Vec<usize> = Vec::new();
    let mut i: usize = 0;
    while i < n
        invariant
            n == s.group_users.items@.len(),
            i <= n,
            out@ == kept_indices(i as nat, |k: int| filter_keeps(s.group_users.filter@, s.group_users.items@[k].user_name@)),
        decreases n - i,
    {
        let it = &s.group_users.items[i];
        if filter_matches(s.group_users.filter.as_str(), it.user_name.as_str()) {
            out.push(i);
        }
        i = i + 1;
    }
    out
}

/// Indices of the role tags whose key passes the filter.
pub open spec fn filtered_tag_rows(s: State) -> Seq<usize> {
    kept_indices(s.tags.items@.len(), |k: int| filter_keeps(s.tags.filter@, s.tags.items@[k].key@))
}

/// Indices of the role tags whose key passes the filter.
pub fn filtered_iam_tags(s: &State) -> (r: Vec<usize>)
    ensures
        r@ == filtered_tag_rows(*s),
{
    let n = s.tags.items.len();
    let mut out: Vec<usize> = Vec::new();
    let mut i: usize = 0;
    while i < n
        invariant
            n == s.tags.items@.len(),
            i <= n,
            out@ == kept_indices(i as nat, |k: int| filter_keeps(s.tags.filter@, s.tags.items@[k].key@)),
        decreases n - i,
    {
        let it = &s.tags.items[i];
        if filter_matches(s.tags.filter.as_str(), it.key.as_str()) {
            out.push(i);
        }
        i = i + 1;
    }
    out
}

/// Indices of the user tags whose key passes the filter.
pub open spec fn filtered_user_tag_rows(s: State) -> Seq<usize> {
    kept_indices(s.user_tags.items@.len(), |k: int| filter_keeps(s.user_tags.filter@, s.user_tags.items@[k].key@))
}

/// Indices of the user tags whose key passes the filter.
pub fn filtered_user_tags(s: &State) -> (r: Vec<usize>)
    ensures
        r@ == filtered_user_tag_rows(*s),
{
    let n = s.user_tags.items.len();
    let mut out: Vec<usize> = Vec::new();
    let mut i: usize = 0;
    while i < n
        invariant
            n == s.user_tags.items@.len(),
            i <= n,
            out@ == kept_indices(i as nat, |k: int| filter_keeps(s.user_tags.filter@, s.user_tags.items@[k].key@)),
        decreases n - i,
    {
        let it = &s.user_tags.items[i];
        if filter_matches(s.user_tags.filter.as_str(), it.key.as_str()) {
            out.push(i);
        }
        i = i + 1;
    }
    out
}

/// Indices of the policies that pass the policy filters.
pub open spec fn filtered_policy_rows(s: State) -> Seq<usize> {
    kept_indices(s.policies.items@.len(), |k: int| policy_kept(s, s.policies.items@[k]))
}

/// Indices of the policies that pass the policy filters.
pub fn filtered_iam_policies(s: &State) -> (r: Vec<usize>)
    ensures
        r@ == filtered_policy_rows(*s),
{
    let n = s.policies.items.len();
    let mut out: Vec<usize> = Vec::new();
    let mut i: usize = 0;
    while i < n
        invariant
            n == s.policies.items@.len(),
            i <= n,
            out@ == kept_indices(i as nat, |k: int| policy_kept(*s, s.policies.items@[k])),
        decreases n - i,
    {
        let it = &s.policies.items[i];
        if filter_matches(s.policies.filter.as_str(), it.policy_name.as_str())
            && (str_eq(s.policy_type_filter.as_str(), "All types") || str_eq(it.policy_type.as_str(), s.policy_type_filter.as_str())) {
            out.push(i);
        }
        i = i + 1;
    }
    out
}

/// Indices of the services that pass the last-accessed filters.
pub open spec fn filtered_last_accessed_rows(s: State) -> Seq<usize> {
    kept_indices(s.last_accessed_services.items@.len(), |k: int| last_accessed_kept(s, s.last_accessed_services.items@[k]))
}

/// Indices of the services that pass the last-accessed filters.
pub fn filtered_last_accessed(s: &State) -> (r: Vec<usize>)
    ensures
        r@ == filtered_last_accessed_rows(*s),
{
    let n = s.last_accessed_services.items.len();
    let mut out: Vec<usize> = Vec::new();
    let mut i: usize = 0;
    while i < n
        invariant
            n == s.last_accessed_services.items@.len(),
            i <= n,
            out@ == kept_indices(i as nat, |k: int| last_accessed_kept(*s, s.last_accessed_services.items@[k])),
        decreases n - i,
    {
        let it = &s.last_accessed_services.items[i];
        if filter_matches(s.last_accessed_services.filter.as_str(), it.service.as_str()) && match s.last_accessed_history_filter {
            HistoryFilter::AllServices => true,
            HistoryFilter::ServicesAccessed => !str_eq(it.last_accessed.as_str(), "Not accessed in the tracking period"),
            HistoryFilter::ServicesNotAccessed => str_eq(it.last_accessed.as_str(), "Not accessed in the tracking period"),
        } {
            out.push(i);
        }
        i = i + 1;
    }
    out
}


impl CyclicEnum for UserTab {
    open spec fn all_values() -> Seq<UserTab> {
        seq![UserTab::Permissions, UserTab::Groups, UserTab::Tags, UserTab::SecurityCredentials, UserTab::LastAccessed]
    }

    fn all() -> (r: Vec<UserTab>) {
        let r = vec![UserTab::Permissions, UserTab::Groups, UserTab::Tags, UserTab::SecurityCredentials, UserTab::LastAccessed];
        assert(r@ =~= Self::all_values());
        r
    }

    fn next(&self) -> (r: UserTab) {
        proof {
            UserTab::lemma_cycle(*self);
        }
        UserTab::next(self)
    }

    fn prev(&self) -> (r: UserTab) {
        proof {
            UserTab::lemma_cycle(*self);
        }
        UserTab::prev(self)
    }

    proof fn lemma_values_listed() {
        let all = Self::all_values();
        UserTab::lemma_cycle(UserTab::Permissions);
        assert forall|x: UserTab| all.contains(x) by {
            match x {
                UserTab::Permissions => assert(all[0] == x),
                UserTab::Groups => assert(all[1] == x),
                UserTab::Tags => assert(all[2] == x),
                UserTab::SecurityCredentials => assert(all[3] == x),
                UserTab::LastAccessed => assert(all[4] == x),
            }
        }
    }
}

impl CyclicEnum for RoleTab {
    open spec fn all_values() -> Seq<RoleTab> {
        seq![RoleTab::Permissions, RoleTab::TrustRelationships, RoleTab::Tags, RoleTab::LastAccessed, RoleTab::RevokeSessions]
    }

    fn all() -> (r: Vec<RoleTab>) {
        let r = vec![RoleTab::Permissions, RoleTab::TrustRelationships, RoleTab::Tags, RoleTab::LastAccessed, RoleTab::RevokeSessions];
        assert(r@ =~= Self::all_values());
        r
    }

    fn next(&self) -> (r: RoleTab) {
        proof {
            RoleTab::lemma_cycle(*self);
        }
        RoleTab::next(self)
    }

    fn prev(&self) -> (r: RoleTab) {
        proof {
            RoleTab::lemma_cycle(*self);
        }
        RoleTab::prev(self)
    }

    proof fn lemma_values_listed() {
        let all = Self::all_values();
        RoleTab::lemma_cycle(RoleTab::Permissions);
        assert forall|x: RoleTab| all.contains(x) by {
            match x {
                RoleTab::Permissions => assert(all[0] == x),
                RoleTab::TrustRelationships => assert(all[1] == x),
                RoleTab::Tags => assert(all[2] == x),
                RoleTab::LastAccessed => assert(all[3] == x),
                RoleTab::RevokeSessions => assert(all[4] == x),
            }
        }
    }
}

impl CyclicEnum for GroupTab {
    open spec fn all_values() -> Seq<GroupTab> {
        seq![GroupTab::Users, GroupTab::Permissions, GroupTab::AccessAdvisor]
    }

    fn all() -> (r: Vec<GroupTab>) {
        let r = vec![GroupTab::Users, GroupTab::Permissions, GroupTab::AccessAdvisor];
        assert(r@ =~= Self::all_values());
        r
    }

    fn next(&self) -> (r: GroupTab) {
        proof {
            GroupTab::lemma_cycle(*self);
        }
        GroupTab::next(self)
    }

    fn prev(&self) -> (r: GroupTab) {
        proof {
            GroupTab::lemma_cycle(*self);
        }
        GroupTab::prev(self)
    }

    proof fn lemma_values_listed() {
        let all = Self::all_values();
        GroupTab::lemma_cycle(GroupTab::Users);
        assert forall|x: GroupTab| all.contains(x) by {
            match x {
                GroupTab::Users => assert(all[0] == x),
                GroupTab::Permissions => assert(all[1] == x),
                GroupTab::AccessAdvisor => assert(all[2] == x),
            }
        }
    }
}

impl CyclicEnum for HistoryFilter {
    open spec fn all_values() -> Seq<HistoryFilter> {
        seq![HistoryFilter::AllServices, HistoryFilter::ServicesAccessed, HistoryFilter::ServicesNotAccessed]
    }

    fn all() -> (r: Vec<HistoryFilter>) {
        let r = vec![HistoryFilter::AllServices, HistoryFilter::ServicesAccessed, HistoryFilter::ServicesNotAccessed];
        assert(r@ =~= Self::all_values());
        r
    }

    fn next(&self) -> (r: HistoryFilter) {
        proof {
            HistoryFilter::lemma_cycle(*self);
        }
        HistoryFilter::next(self)
    }

    fn prev(&self) -> (r: HistoryFilter) {
        proof {
            HistoryFilter::lemma_cycle(*self);
        }
        HistoryFilter::prev(self)
    }

    proof fn lemma_values_listed() {
        let all = Self::all_values();
        HistoryFilter::lemma_cycle(HistoryFilter::AllServices);
        assert forall|x: HistoryFilter| all.contains(x) by {
            match x {
                HistoryFilter::AllServices => assert(all[0] == x),
                HistoryFilter::ServicesAccessed => assert(all[1] == x),
                HistoryFilter::ServicesNotAccessed => assert(all[2] == x),
            }
        }
    }
}

} // verus!
