//! Character records of the census API, and the outcome of a character lookup.
use vstd::prelude::*;
use crate::json::JsonError;

verus! {

/// A character's name.
#[derive(Clone, Debug, PartialEq)]
pub struct Name {
    pub first: String,
    pub first_lower: String,
}

/// A character's battle rank.
#[derive(Clone, Debug, PartialEq)]
pub struct BattleRank {
    pub percent_to_next: u32,
    pub value: u32,
}

/// A character's certification points. The census API gives the progress to
/// the next point as a 32-bit float; it is kept here by its bit pattern.
#[derive(Clone, Debug, PartialEq)]
pub struct Certs {
    pub earned_points: u32,
    pub gifted_points: u32,
    pub spent_points: u32,
    pub available_points: u32,
    pub percent_to_next_bits: u32,
}

/// A character's daily ribbon.
#[derive(Clone, Debug, PartialEq)]
pub struct DailyRibbon {
    pub count: u8,
    pub time: u32,
    pub date: String,
}

/// A character's timestamps and play time.
#[derive(Clone, Debug, PartialEq)]
pub struct Times {
    pub creation: u32,
    pub creation_date: String,
    pub last_save: u32,
    pub last_save_date: String,
    pub last_login: u32,
    pub last_login_date: String,
    pub login_count: u32,
    pub minutes_played: u32,
}

/// A character record.
#[derive(Clone, Debug, PartialEq)]
pub struct Character {
    pub character_id: String,
    pub name: Name,
    pub faction_id: u8,
    pub head_id: u8,
    pub title_id: u32,
    pub times: Times,
    pub certs: Certs,
    pub battle_rank: BattleRank,
    pub profile_id: u32,
    pub daily_ribbon: DailyRibbon,
}

/// The body of a character query: the matching characters.
#[derive(Clone, Debug, PartialEq)]
pub struct CharacterReturn {
    character_list: Vec<Character>,
    returned: u32,
}

impl CharacterReturn {
    /// A query body with the given characters and reported count.
    pub fn new(character_list: Vec<Character>, returned: u32) -> (r: CharacterReturn)
        ensures
            r.characters() == character_list@,
            r.returned() == returned,
    {
        CharacterReturn { character_list, returned }
    }

    /// The characters of the body.
    pub closed spec fn characters(self) -> Seq<Character> {
        self.character_list@
    }

    /// The count the body reports.
    pub closed spec fn returned(self) -> u32 {
        self.returned
    }
}

/// An HTTP transport failure, by the client's description.
#[derive(Clone, Debug, PartialEq)]
pub struct HttpError {
    pub message: String,
}

/// Why a character lookup failed.
#[derive(Clone, Debug, PartialEq)]
pub enum Error {
    /// The body was not a character query result.
    Json(JsonError),
    /// The request failed.
    Hyper(HttpError),
    /// The server answered with this status, not 200.
    Server(u16),
    /// The body did not hold exactly one character; the looked-up id.
    NoCharacter(String),
}

/// The census server's reply to a character query.
pub struct CensusReply {
    /// The HTTP status.
    pub status: u16,
    /// The body decoded as a query result; read only when the status is 200.
    pub body: Option<Result<CharacterReturn, JsonError>>,
}

/// The query address for a character id.
pub open spec fn character_url_of(id: Seq<char>) -> Seq<char> {
    "http://census.daybreakgames.com/s:scrmopsbot/get/ps2:v2/character?character_id="@ + id
}

/// The census query address for the character with id `id`.
pub fn character_url(id: &str) -> (r: String)
    ensures
        r@ == character_url_of(id@),
{
    let mut url = String::new();
    url.append("http://census.daybreakgames.com/s:scrmopsbot/get/ps2:v2/character?character_id=");
    url.append(id);
    url
}

/// A lookup outcome, as plain values.
pub enum LookupOutcome {
    Found(Character),
    Json(JsonError),
    Hyper(HttpError),
    Server(u16),
    NoCharacter(Seq<char>),
}

/// A lookup result as a [`LookupOutcome`].
pub open spec fn outcome_of(r: Result<Character, Error>) -> LookupOutcome {
    match r {
        Ok(c) => LookupOutcome::Found(c),
        Err(Error::Json(e)) => LookupOutcome::Json(e),
        Err(Error::Hyper(e)) => LookupOutcome::Hyper(e),
        Err(Error::Server(s)) => LookupOutcome::Server(s),
        Err(Error::NoCharacter(id)) => LookupOutcome::NoCharacter(id@),
    }
}

/// The outcome of looking up character `id`, given what the request gave.
pub open spec fn lookup_outcome(id: Seq<char>, reply: Result<CensusReply, HttpError>) -> LookupOutcome {
    match reply {
        Err(e) => LookupOutcome::Hyper(e),
        Ok(r) => if r.status == 200 {
            match r.body.unwrap() {
                Ok(ret) => if ret.characters().len() == 1 {
                    LookupOutcome::Found(ret.characters()[0])
                } else {
                    LookupOutcome::NoCharacter(id)
                },
                Err(e) => LookupOutcome::Json(e),
            }
        } else {
            LookupOutcome::Server(r.status)
        },
    }
}

/// The outcome of looking up character `id`, given what the request gave:
/// the one character of a 200 reply, or why there is none.
pub fn character_from_reply(id: &str, reply: Result<CensusReply, HttpError>) -> (r: Result<
    Character,
    Error,
>)
    requires
        reply matches Ok(rep) ==> (rep.status == 200 ==> rep.body is Some),
    ensures
        outcome_of(r) == lookup_outcome(id@, reply),
{
    match reply {
        Err(e) => Err(Error::Hyper(e)),
        Ok(rep) => {
            if rep.status == 200 {
                match rep.body.unwrap() {
                    Ok(ret) => {
                        let mut list = ret.character_list;
                        if list.len() == 1 {
                            Ok(list.pop().unwrap())
                        } else {
                            Err(Error::NoCharacter(id.to_owned()))
                        }
                    },
                    Err(e) => Err(Error::Json(e)),
                }
            } else {
                Err(Error::Server(rep.status))
            }
        },
    }
}

} // verus!
