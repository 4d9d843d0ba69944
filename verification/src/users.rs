//! Users, their sessions and their email addresses, as they are stored.
//!
//! Identifiers are 128-bit ULIDs and points in time are seconds and
//! nanoseconds since the Unix epoch. The sample makers take the identifiers
//! to use from the caller, in the order in which they use them.

use vstd::prelude::*;

verus! {

/// A 128-bit identifier.
#[derive(Debug, Clone, Copy, PartialEq, Eq, Structural, Hash)]
pub struct Ulid(pub u128);

/// A point in time: seconds since the Unix epoch, and nanoseconds within the
/// second.
#[derive(Debug, Clone, Copy, PartialEq, Eq, Structural, Hash)]
pub struct Timestamp {
    pub secs: i64,
    pub nanos: u32,
}

/// Whether `a` is before `b`.
pub open spec fn before(a: Timestamp, b: Timestamp) -> bool {
    a.secs < b.secs || (a.secs == b.secs && a.nanos < b.nanos)
}

/// The point in time `secs` seconds before `t`.
pub open spec fn earlier(t: Timestamp, secs: int) -> Timestamp {
    Timestamp { secs: (t.secs - secs) as i64, nanos: t.nanos }
}

impl Timestamp {
    /// Whether `self` is before `other`.
    pub fn is_before(&self, other: &Timestamp) -> (b: bool)
        ensures
            b == before(*self, *other),
    {
        self.secs < other.secs || (self.secs == other.secs && self.nanos < other.nanos)
    }

    /// The point in time `secs` seconds before `self`.
    pub fn minus_secs(&self, secs: u32) -> (t: Timestamp)
        requires
            self.secs - secs >= i64::MIN,
        ensures
            t == earlier(*self, secs as int),
    {
        Timestamp { secs: self.secs - secs as i64, nanos: self.nanos }
    }
}

/// An IP address, as the number that its bits make.
#[derive(Debug, Clone, Copy, PartialEq, Eq, Structural, Hash)]
pub enum IpAddress {
    V4(u32),
    V6(u128),
}

/// A user.
#[derive(Debug)]
pub struct User {
    pub id: Ulid,
    pub username: String,
    pub sub: String,
    pub primary_user_email_id: Option<Ulid>,
    pub created_at: Timestamp,
    pub locked_at: Option<Timestamp>,
    pub can_request_admin: bool,
}

impl Clone for User {
    fn clone(&self) -> (copy: Self)
        ensures
            copy == *self,
    {
        User {
            id: self.id,
            username: self.username.clone(),
            sub: self.sub.clone(),
            primary_user_email_id: self.primary_user_email_id,
            created_at: self.created_at,
            locked_at: self.locked_at,
            can_request_admin: self.can_request_admin,
        }
    }
}

/// Whether a user is the sample user made at `now` with the identifier `id`.
pub open spec fn is_sample_user(user: User, now: Timestamp, id: Ulid) -> bool {
    &&& user.id == id
    &&& user.username@ == "john"@
    &&& user.sub@ == "123-456"@
    &&& user.primary_user_email_id is None
    &&& user.created_at == now
    &&& user.locked_at is None
    &&& !user.can_request_admin
}

impl User {
    /// Returns `true` unless the user is locked.
    #[must_use]
    pub fn is_valid(&self) -> (valid: bool)
        ensures
            valid == self.locked_at is None,
    {
        self.locked_at.is_none()
    }

    /// One sample user, made at `now` with the identifier `id`.
    #[must_use]
    pub fn samples(now: Timestamp, id: Ulid) -> (users: Vec<Self>)
        ensures
            users.len() == 1,
            is_sample_user(users[0], now, id),
    {
        let mut users: Vec<User> = Vec::new();
        users.push(
            User {
                id,
                username: "john".to_owned(),
                sub: "123-456".to_owned(),
                primary_user_email_id: None,
                created_at: now,
                locked_at: None,
                can_request_admin: false,
            },
        );
        users
    }
}

/// A stored password.
#[derive(Debug)]
pub struct Password {
    pub id: Ulid,
    pub hashed_password: String,
    pub version: u16,
    pub upgraded_from_id: Option<Ulid>,
    pub created_at: Timestamp,
}

/// How an authentication was made.
#[derive(Debug, Clone, Copy, PartialEq, Eq, Structural)]
pub enum AuthenticationMethod {
    Password { user_password_id: Ulid },
    UpstreamOAuth2 { upstream_oauth2_session_id: Ulid },
    Unknown,
}

/// An authentication of a user.
#[derive(Debug, Clone, Copy, PartialEq, Eq, Structural)]
pub struct Authentication {
    pub id: Ulid,
    pub created_at: Timestamp,
    pub authentication_method: AuthenticationMethod,
}

/// A session to recover a user who has lost their credentials.
///
/// For each session there may be several [`UserRecoveryTicket`]s, because
/// several users have the same email address or because the recovery email
/// was asked for again.
#[derive(Debug)]
pub struct UserRecoverySession {
    pub id: Ulid,
    pub email: String,
    pub user_agent: String,
    pub ip_address: Option<IpAddress>,
    pub locale: String,
    pub created_at: Timestamp,
    pub consumed_at: Option<Timestamp>,
}

/// One recovery ticket of a recovery session, sent by email as a link.
#[derive(Debug)]
pub struct UserRecoveryTicket {
    pub id: Ulid,
    pub user_recovery_session_id: Ulid,
    pub user_email_id: Ulid,
    pub ticket: String,
    pub created_at: Timestamp,
    pub expires_at: Timestamp,
}

impl UserRecoveryTicket {
    /// Whether the ticket has not expired at `now`.
    #[must_use]
    pub fn active(&self, now: Timestamp) -> (active: bool)
        ensures
            active == before(now, self.expires_at),
    {
        now.is_before(&self.expires_at)
    }
}

/// The user agent of the sample browser session.
pub const SAMPLE_USER_AGENT: &'static str =
    "Mozilla/5.0 (Windows NT 10.0; Win64; x64) AppleWebKit/537.36 (KHTML, like Gecko) Chrome/93.0.0.0 Safari/537.36";

/// A browser session of a user.
#[derive(Debug)]
pub struct BrowserSession {
    pub id: Ulid,
    pub user: User,
    pub created_at: Timestamp,
    pub finished_at: Option<Timestamp>,
    pub user_agent: Option<String>,
    pub last_active_at: Option<Timestamp>,
    pub last_active_ip: Option<IpAddress>,
}

impl BrowserSession {
    /// Whether the session is not finished and its user is not locked.
    #[must_use]
    pub fn active(&self) -> (active: bool)
        ensures
            active == (self.finished_at is None && self.user.locked_at is None),
    {
        self.finished_at.is_none() && self.user.is_valid()
    }

    /// One sample session, made at `now`: a session of the sample user with
    /// the identifier `user_id`, with the identifier `id`.
    #[must_use]
    pub fn samples(now: Timestamp, user_id: Ulid, id: Ulid) -> (sessions: Vec<Self>)
        ensures
            sessions.len() == 1,
            sessions[0].id == id,
            is_sample_user(sessions[0].user, now, user_id),
            sessions[0].created_at == now,
            sessions[0].finished_at is None,
            sessions[0].user_agent matches Some(agent) && agent@ == SAMPLE_USER_AGENT@,
            sessions[0].last_active_at == Some(now),
            sessions[0].last_active_ip is None,
    {
        let users = User::samples(now, user_id);
        let mut sessions: Vec<BrowserSession> = Vec::new();
        let mut i: usize = 0;
        while i < users.len()
            invariant
                i <= users.len(),
                users.len() == 1,
                is_sample_user(users[0], now, user_id),
                sessions.len() == i,
                i == 1 ==> {
                    &&& sessions[0].id == id
                    &&& is_sample_user(sessions[0].user, now, user_id)
                    &&& sessions[0].created_at == now
                    &&& sessions[0].finished_at is None
                    &&& sessions[0].user_agent matches Some(agent) && agent@
                        == SAMPLE_USER_AGENT@
                    &&& sessions[0].last_active_at == Some(now)
                    &&& sessions[0].last_active_ip is None
                },
            decreases users.len() - i,
        {
            sessions.push(
                BrowserSession {
                    id,
                    user: users[i].clone(),
                    created_at: now,
                    finished_at: None,
                    user_agent: Some(SAMPLE_USER_AGENT.to_owned()),
                    last_active_at: Some(now),
                    last_active_ip: None,
                },
            );
            i += 1;
        }
        sessions
    }
}

/// An email address of a user.
#[derive(Debug)]
pub struct UserEmail {
    pub id: Ulid,
    pub user_id: Ulid,
    pub email: String,
    pub created_at: Timestamp,
    pub confirmed_at: Option<Timestamp>,
}

impl UserEmail {
    /// Two sample addresses, made at `now`: a confirmed one and an
    /// unconfirmed one. `ids` gives the identifier of the first address, that
    /// of its user, and the same for the second.
    #[must_use]
    pub fn samples(now: Timestamp, ids: [Ulid; 4]) -> (emails: Vec<Self>)
        ensures
            emails.len() == 2,
            emails[0].id == ids[0],
            emails[0].user_id == ids[1],
            emails[0].email@ == "alice@example.com"@,
            emails[0].created_at == now,
            emails[0].confirmed_at == Some(now),
            emails[1].id == ids[2],
            emails[1].user_id == ids[3],
            emails[1].email@ == "bob@example.com"@,
            emails[1].created_at == now,
            emails[1].confirmed_at is None,
    {
        let mut emails: Vec<UserEmail> = Vec::new();
        emails.push(
            UserEmail {
                id: ids[0],
                user_id: ids[1],
                email: "alice@example.com".to_owned(),
                created_at: now,
                confirmed_at: Some(now),
            },
        );
        emails.push(
            UserEmail {
                id: ids[2],
                user_id: ids[3],
                email: "bob@example.com".to_owned(),
                created_at: now,
                confirmed_at: None,
            },
        );
        emails
    }
}

/// Where the verification of an email address stands.
#[derive(Debug, Clone, Copy, PartialEq, Eq, Structural)]
pub enum UserEmailVerificationState {
    AlreadyUsed { when: Timestamp },
    Expired { when: Timestamp },
    Valid,
}

impl UserEmailVerificationState {
    /// Whether the verification can still be used.
    #[must_use]
    pub fn is_valid(&self) -> (valid: bool)
        ensures
            valid == (*self is Valid),
    {
        match self {
            UserEmailVerificationState::Valid => true,
            _ => false,
        }
    }
}

/// The verification of an email address by a code.
#[derive(Debug)]
pub struct UserEmailVerification {
    pub id: Ulid,
    pub user_email_id: Ulid,
    pub code: String,
    pub created_at: Timestamp,
    pub state: UserEmailVerificationState,
}

/// The state of the sample verifications of round `round`, made at `now`:
/// used five minutes ago, expired five minutes ago, and valid.
pub open spec fn sample_state(round: int, now: Timestamp) -> UserEmailVerificationState {
    if round == 0 {
        UserEmailVerificationState::AlreadyUsed { when: earlier(now, 300) }
    } else if round == 1 {
        UserEmailVerificationState::Expired { when: earlier(now, 300) }
    } else {
        UserEmailVerificationState::Valid
    }
}

/// Whether a verification is the sample verification of the given round for
/// the given address, made at `now` with the identifiers of that round.
pub open spec fn is_sample_verification(
    verification: UserEmailVerification,
    now: Timestamp,
    round: int,
    address: int,
    ids: [Ulid; 6],
) -> bool {
    &&& verification.id == ids[4 + address]
    &&& verification.user_email_id == ids[2 * address]
    &&& verification.code@ == "123456"@
    &&& verification.created_at == earlier(now, 600)
    &&& verification.state == sample_state(round, now)
}

impl UserEmailVerification {
    /// Where the verification stands.
    pub fn state(&self) -> (state: &UserEmailVerificationState)
        ensures
            *state == self.state,
    {
        &self.state
    }

    /// Whether the verification can still be used.
    #[must_use]
    pub fn is_valid(&self) -> (valid: bool)
        ensures
            valid == (self.state is Valid),
    {
        self.state.is_valid()
    }

    /// Six sample verifications, made at `now` and sent ten minutes before:
    /// in three rounds (used, expired, valid), one for each of the two sample
    /// addresses. `ids` gives for each round the four identifiers that the
    /// sample addresses take, then those of the two verifications.
    #[must_use]
    pub fn samples(now: Timestamp, ids: [[Ulid; 6]; 3]) -> (verifications: Vec<Self>)
        requires
            now.secs - 600 >= i64::MIN,
        ensures
            verifications.len() == 6,
            is_sample_verification(verifications[0], now, 0, 0, ids[0]),
            is_sample_verification(verifications[1], now, 0, 1, ids[0]),
            is_sample_verification(verifications[2], now, 1, 0, ids[1]),
            is_sample_verification(verifications[3], now, 1, 1, ids[1]),
            is_sample_verification(verifications[4], now, 2, 0, ids[2]),
            is_sample_verification(verifications[5], now, 2, 1, ids[2]),
    {
        let states = [
            UserEmailVerificationState::AlreadyUsed { when: now.minus_secs(300) },
            UserEmailVerificationState::Expired { when: now.minus_secs(300) },
            UserEmailVerificationState::Valid,
        ];
        let mut verifications: Vec<UserEmailVerification> = Vec::new();
        let mut round: usize = 0;
        while round < 3
            invariant
                round <= 3,
                now.secs - 600 >= i64::MIN,
                states[0] == sample_state(0, now),
                states[1] == sample_state(1, now),
                states[2] == sample_state(2, now),
                verifications.len() == 2 * round,
                forall|k: int|
                    0 <= k < 2 * round ==> is_sample_verification(
                        #[trigger] verifications[k],
                        now,
                        k / 2,
                        k % 2,
                        ids[k / 2],
                    ),
            decreases 3 - round,
        {
            let round_ids = ids[round];
            let emails = UserEmail::samples(
                now,
                [round_ids[0], round_ids[1], round_ids[2], round_ids[3]],
            );
            let state = states[round];
            let mut address: usize = 0;
            while address < 2
                invariant
                    address <= 2,
                    round < 3,
                    now.secs - 600 >= i64::MIN,
                    round_ids == ids[round as int],
                    state == sample_state(round as int, now),
                    emails.len() == 2,
                    emails[0].id == round_ids[0],
                    emails[1].id == round_ids[2],
                    verifications.len() == 2 * round + address,
                    forall|k: int|
                        0 <= k < 2 * round + address ==> is_sample_verification(
                            #[trigger] verifications[k],
                            now,
                            k / 2,
                            k % 2,
                            ids[k / 2],
                        ),
                decreases 2 - address,
            {
                let ghost done = verifications@;
                verifications.push(
                    UserEmailVerification {
                        id: round_ids[4 + address],
                        user_email_id: emails[address].id,
                        code: "123456".to_owned(),
                        created_at: now.minus_secs(600),
                        state,
                    },
                );
                assert forall|k: int| 0 <= k < 2 * round + address + 1 implies is_sample_verification(
                    #[trigger] verifications[k],
                    now,
                    k / 2,
                    k % 2,
                    ids[k / 2],
                ) by {
                    if k < 2 * round + address {
                        assert(verifications[k] == done[k]);
                    } else {
                        assert(k / 2 == round && k % 2 == address);
                    }
                }
                address += 1;
            }
            round += 1;
        }
        assert(is_sample_verification(verifications[0], now, 0int / 2, 0int % 2, ids[0int / 2]));
        assert(is_sample_verification(verifications[1], now, 1int / 2, 1int % 2, ids[1int / 2]));
        assert(is_sample_verification(verifications[2], now, 2int / 2, 2int % 2, ids[2int / 2]));
        assert(is_sample_verification(verifications[3], now, 3int / 2, 3int % 2, ids[3int / 2]));
        assert(is_sample_verification(verifications[4], now, 4int / 2, 4int % 2, ids[4int / 2]));
        assert(is_sample_verification(verifications[5], now, 5int / 2, 5int % 2, ids[5int / 2]));
        verifications
    }
}

} // verus!
