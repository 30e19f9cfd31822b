use vstd::prelude::*;

verus! {

/// The Windows mandatory-integrity label of a token, ordered
/// low < medium < high < system.
#[derive(Clone, Copy, PartialEq, Eq, Structural, Debug)]
pub enum IntegrityLevel {
    Low,
    Medium,
    High,
    System,
}

/// Membership of the token's owner in the local administrators group.
#[derive(Clone, Copy, PartialEq, Eq, Structural, Debug)]
pub enum AdminMembership {
    /// Not in the administrators group at all.
    NotMember,
    /// In the group and the membership is effective.
    Effective,
    /// In the group but marked use-for-deny-only.
    DenyOnly,
}

/// Classification of a token's privilege.
#[derive(Clone, Copy, PartialEq, Eq, Structural, Debug)]
pub enum PrivilegeLevel {
    /// Medium integrity, not an effective administrator.
    NotPrivileged,
    /// Effective administrator at high integrity (already elevated).
    HighIntegrityAdmin,
    /// Effective administrator elevated beyond high integrity
    /// (for example running as SYSTEM).
    Elevated,
}

/// An access token, modelled by the attributes the bridge reads:
/// integrity level, administrators-group membership, and the user SID
/// the token stands for.
#[derive(Clone, Copy, PartialEq, Eq, Structural, Debug)]
pub struct Token {
    pub integrity: IntegrityLevel,
    pub admin: AdminMembership,
    pub sid: u64,
}

/// What `Token::privilege_level` returns, as a spec-level function of
/// the token's attributes.
pub open spec fn spec_privilege_level(t: Token) -> PrivilegeLevel {
    if t.admin == AdminMembership::Effective && t.integrity == IntegrityLevel::System {
        PrivilegeLevel::Elevated
    } else if t.admin == AdminMembership::Effective && t.integrity == IntegrityLevel::High {
        PrivilegeLevel::HighIntegrityAdmin
    } else {
        PrivilegeLevel::NotPrivileged
    }
}

impl Token {
    /// Builds a token value from its observed attributes.
    pub fn new(integrity: IntegrityLevel, admin: AdminMembership, sid: u64) -> (t: Token)
        ensures
            t == (Token { integrity, admin, sid }),
    {
        Token { integrity, admin, sid }
    }

    /// Classifies the token: an effective administrator is `Elevated`
    /// at system integrity, `HighIntegrityAdmin` at high integrity, and
    /// every other token is `NotPrivileged`.
    pub fn privilege_level(&self) -> (level: PrivilegeLevel)
        ensures
            level == spec_privilege_level(*self),
    {
        if self.admin == AdminMembership::Effective && self.integrity == IntegrityLevel::System {
            PrivilegeLevel::Elevated
        } else if self.admin == AdminMembership::Effective && self.integrity
            == IntegrityLevel::High {
            PrivilegeLevel::HighIntegrityAdmin
        } else {
            PrivilegeLevel::NotPrivileged
        }
    }

    /// Derives the restricted medium-integrity token used to run a
    /// de-elevated child: same user SID, administrators group dropped
    /// to use-for-deny-only, integrity lowered to medium.
    pub fn as_medium_integrity_safer_token(&self) -> (t: Token)
        ensures
            t.integrity == IntegrityLevel::Medium,
            t.admin == AdminMembership::DenyOnly,
            t.sid == self.sid,
            spec_privilege_level(t) == PrivilegeLevel::NotPrivileged,
    {
        Token { integrity: IntegrityLevel::Medium, admin: AdminMembership::DenyOnly, sid: self.sid }
    }
}

} // verus!
