use vstd::prelude::*;
use mongodb::bson::oid::ObjectId;
use crate::clock::rfc3339_millis;
use crate::error::AuthError;
use crate::record::{IdentityRecord, IdentityView};
use crate::strings::opt_view;

verus! {

/// bson's `ObjectId`, carried through opaque.
#[verifier::external_type_specification]
#[verifier::external_body]
pub struct ExObjectId(ObjectId);

/// Relies on bson's `ObjectId::new`, which builds an id from the time, the
/// process and a counter; nothing is assumed of the value.
pub assume_specification[ ObjectId::new ]() -> ObjectId;

/// One participant of a recorded match: a member by id, or a name.
pub struct MatchPlayer {
    pub id: Option<ObjectId>,
    pub unregistered_name: Option<String>,
    pub score: i32,
}

/// A recorded match.
pub struct Match {
    pub _id: Option<ObjectId>,
    pub players: Vec<MatchPlayer>,
    pub date: String,
}

/// A member document: profile fields, authentication state and history.
pub struct User {
    pub _id: ObjectId,
    pub name: Option<String>,
    pub majsoul_username: Option<String>,
    pub discord_username: Option<String>,
    pub email: String,
    pub session_id: Option<String>,
    pub code: String,
    pub code_date: String,
    pub match_history: Vec<Match>,
    pub avatar: Option<String>,
}

impl User {
    /// A new member with a fresh id, the given authentication fields and
    /// history, and no profile fields or session.
    pub fn new(email: String, code: String, code_date: String, match_history: Vec<Match>) -> (r: Self)
        ensures
            r.email == email,
            r.code == code,
            r.code_date == code_date,
            r.match_history == match_history,
            r.name is None,
            r.majsoul_username is None,
            r.discord_username is None,
            r.session_id is None,
            r.avatar is None,
    {
        User {
            _id: ObjectId::new(),
            name: None,
            majsoul_username: None,
            discord_username: None,
            email,
            code,
            code_date,
            session_id: None,
            match_history,
            avatar: None,
        }
    }

    /// The member as shown to themself: everything but the session token,
    /// the code and its date, which are emptied.
    pub fn details(user: User) -> (r: Self)
        ensures
            r._id == user._id,
            r.name == user.name,
            r.majsoul_username == user.majsoul_username,
            r.discord_username == user.discord_username,
            r.email == user.email,
            r.match_history == user.match_history,
            r.avatar == user.avatar,
            r.session_id is None,
            r.code@ == Seq::<char>::empty(),
            r.code_date@ == Seq::<char>::empty(),
    {
        User {
            _id: user._id,
            name: user.name,
            majsoul_username: user.majsoul_username,
            discord_username: user.discord_username,
            email: user.email,
            session_id: None,
            code: String::new(),
            code_date: String::new(),
            match_history: user.match_history,
            avatar: user.avatar,
        }
    }

    /// The member as listed to others: id, name, email and avatar only.
    pub fn member_view(user: &User) -> (r: Self)
        ensures
            r._id == user._id,
            r.name == user.name,
            r.email == user.email,
            r.avatar == user.avatar,
            r.majsoul_username is None,
            r.discord_username is None,
            r.session_id is None,
            r.code@ == Seq::<char>::empty(),
            r.code_date@ == Seq::<char>::empty(),
            r.match_history@.len() == 0,
    {
        User {
            _id: user._id,
            name: user.name.clone(),
            majsoul_username: None,
            discord_username: None,
            email: user.email.clone(),
            session_id: None,
            code: String::new(),
            code_date: String::new(),
            match_history: Vec::new(),
            avatar: user.avatar.clone(),
        }
    }

    /// The authentication state held in this document.
    pub fn identity(&self) -> (r: Result<IdentityRecord, AuthError>)
        ensures
            match rfc3339_millis(self.code_date@) {
                Some(t) => r matches Ok(rec) && rec@ == (IdentityView {
                    email: self.email@,
                    code: self.code@,
                    code_issued_at: t,
                    session_id: opt_view(self.session_id),
                    ip_address: None,
                }),
                None => r == Err::<IdentityRecord, AuthError>(AuthError::StoreError),
            },
    {
        IdentityRecord::from_stored(
            self.email.clone(),
            self.code.clone(),
            self.code_date.as_str(),
            self.session_id.clone(),
            None,
        )
    }
}

} // verus!
