//! A connection profile and the texts it is made from.

use vstd::prelude::*;

use crate::text::{is_digit, is_digit_run, number_of, parse_number};

verus! {

/// The port of a profile whose port was left out or could not be read.
pub const DEFAULT_PORT: i32 = 22;

/// A stored connection profile.
#[derive(Debug, Clone, PartialEq, Eq)]
pub struct Profile {
    /// The number that the table gave the profile.
    pub id: i32,
    /// A label for the user.
    pub name: String,
    /// The host name or address to connect to.
    pub host: String,
    /// The port to connect to.
    pub port: i32,
    /// The user to log in as.
    pub username: String,
    /// The password, kept as it was typed.
    pub password: String,
}

/// A profile as the menu shows it: everything but the password.
#[derive(Debug, Clone, PartialEq, Eq)]
pub struct Summary {
    /// The profile's id.
    pub id: i32,
    /// The profile's name.
    pub name: String,
    /// The profile's host.
    pub host: String,
    /// The profile's port.
    pub port: i32,
    /// The profile's user.
    pub username: String,
}

/// The mathematical value of a `Profile`.
pub struct ProfileView {
    pub id: int,
    pub name: Seq<char>,
    pub host: Seq<char>,
    pub port: int,
    pub username: Seq<char>,
    pub password: Seq<char>,
}

/// The mathematical value of a `Summary`.
pub struct SummaryView {
    pub id: int,
    pub name: Seq<char>,
    pub host: Seq<char>,
    pub port: int,
    pub username: Seq<char>,
}

/// What the user supplies for a profile: five texts, the port among them as
/// it was typed.
pub struct Fields {
    pub name: Seq<char>,
    pub host: Seq<char>,
    pub port: Seq<char>,
    pub username: Seq<char>,
    pub password: Seq<char>,
}

impl View for Profile {
    type V = ProfileView;

    open spec fn view(&self) -> ProfileView {
        ProfileView {
            id: self.id as int,
            name: self.name@,
            host: self.host@,
            port: self.port as int,
            username: self.username@,
            password: self.password@,
        }
    }
}

impl View for Summary {
    type V = SummaryView;

    open spec fn view(&self) -> SummaryView {
        SummaryView {
            id: self.id as int,
            name: self.name@,
            host: self.host@,
            port: self.port as int,
            username: self.username@,
        }
    }
}

/// The values of a list of profiles.
pub open spec fn profile_views(rows: Seq<Profile>) -> Seq<ProfileView> {
    rows.map_values(|p: Profile| p@)
}

/// The values of a list of summaries.
pub open spec fn summary_views(rows: Seq<Summary>) -> Seq<SummaryView> {
    rows.map_values(|s: Summary| s@)
}

impl ProfileView {
    /// A profile that may stand in the table: it has an id, a name, a host
    /// and a user, and its port is a positive number.
    pub open spec fn valid(self) -> bool {
        &&& 1 <= self.id <= i32::MAX
        &&& self.name.len() > 0
        &&& self.host.len() > 0
        &&& self.username.len() > 0
        &&& 1 <= self.port <= i32::MAX
    }

    /// The profile without its password.
    pub open spec fn summary(self) -> SummaryView {
        SummaryView {
            id: self.id,
            name: self.name,
            host: self.host,
            port: self.port,
            username: self.username,
        }
    }
}

impl Fields {
    /// None of the three required texts is empty: name, host and user.
    pub open spec fn complete(self) -> bool {
        self.name.len() > 0 && self.host.len() > 0 && self.username.len() > 0
    }

    /// The profile that these texts make under the id `id`.
    pub open spec fn record(self, id: int) -> ProfileView {
        ProfileView {
            id,
            name: self.name,
            host: self.host,
            port: port_of(self.port) as int,
            username: self.username,
            password: self.password,
        }
    }
}

/// The port that a text gives: the number it denotes, with or without a `+`
/// before its digits, where that is a positive number up to `i32::MAX`;
/// `DEFAULT_PORT` for any other text, the empty one among them.
pub open spec fn port_of(text: Seq<char>) -> i32 {
    let digits = if text.len() > 0 && text[0] == '+' {
        text.drop_first()
    } else {
        text
    };
    match number_of(digits) {
        Some(port) => if port >= 1 {
            port
        } else {
            DEFAULT_PORT
        },
        None => DEFAULT_PORT,
    }
}

/// Reads a port. A text that gives no positive number gives the default.
pub fn parse_port(text: &str) -> (port: i32)
    ensures
        port == port_of(text@),
        port >= 1,
{
    let n = text.unicode_len();
    let digits = if n > 0 && text.get_char(0) == '+' {
        let rest = text.substring_char(1, n);
        assert(rest@ =~= text@.drop_first());
        rest
    } else {
        text
    };
    match parse_number(digits) {
        Some(port) => if port >= 1 {
            port
        } else {
            DEFAULT_PORT
        },
        None => DEFAULT_PORT,
    }
}

/// Whatever the text, the port it gives is a positive number.
pub proof fn law_port_is_positive(text: Seq<char>)
    ensures
        1 <= port_of(text) <= i32::MAX,
{
}

/// The empty text gives the default port.
pub proof fn law_port_of_nothing()
    ensures
        port_of(Seq::empty()) == DEFAULT_PORT,
{
}

/// A text with a character that is no decimal digit gives the default port;
/// a `+` in the first place is the one character that may stand there.
pub proof fn law_port_of_no_number(text: Seq<char>, i: int)
    requires
        0 <= i < text.len(),
        !is_digit(text[i]),
        !(i == 0 && text[0] == '+'),
    ensures
        port_of(text) == DEFAULT_PORT,
{
    if text[0] == '+' {
        let digits = text.drop_first();
        assert(digits[i - 1] == text[i]);
        assert(!is_digit_run(digits));
    } else {
        assert(!is_digit_run(text));
    }
}

/// A profile keeps the port that its text gives: what `create` and `update`
/// store is `port_of` of what was typed.
pub proof fn law_port_is_stored(fields: Fields, id: int)
    ensures
        fields.record(id).port == port_of(fields.port),
        fields.record(id).id == id,
        fields.record(id).name == fields.name,
        fields.record(id).host == fields.host,
        fields.record(id).username == fields.username,
        fields.record(id).password == fields.password,
{
}

impl Profile {
    /// A copy of the profile.
    pub fn duplicate(&self) -> (copy: Profile)
        ensures
            copy@ == self@,
    {
        Profile {
            id: self.id,
            name: self.name.clone(),
            host: self.host.clone(),
            port: self.port,
            username: self.username.clone(),
            password: self.password.clone(),
        }
    }

    /// The profile without its password.
    pub fn summary(&self) -> (summary: Summary)
        ensures
            summary@ == self@.summary(),
    {
        Summary {
            id: self.id,
            name: self.name.clone(),
            host: self.host.clone(),
            port: self.port,
            username: self.username.clone(),
        }
    }
}

} // verus!
