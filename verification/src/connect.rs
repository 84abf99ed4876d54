//! Connecting to a profile: the command that is run for it, and what is said
//! when the command fails.

use vstd::prelude::*;

use crate::menu::{address, address_of};
use crate::profile::{Profile, ProfileView};
use crate::text::{decimal, decimal_text};

verus! {

/// A command for the system to run: a program and its arguments.
#[derive(Debug, Clone, PartialEq, Eq)]
pub struct Launch {
    /// The program's name.
    pub program: String,
    /// The arguments, in order.
    pub arguments: Vec<String>,
}

/// The mathematical value of a `Launch`.
pub struct LaunchView {
    pub program: Seq<char>,
    pub arguments: Seq<Seq<char>>,
}

/// The values of a list of texts.
pub open spec fn text_views(texts: Seq<String>) -> Seq<Seq<char>> {
    texts.map_values(|t: String| t@)
}

impl View for Launch {
    type V = LaunchView;

    open spec fn view(&self) -> LaunchView {
        LaunchView { program: self.program@, arguments: text_views(self.arguments@) }
    }
}

/// The command that connects to a profile: `sshpass` hands the password to
/// `ssh`, which logs in as the user at the host, on the profile's port.
pub open spec fn launch_of(profile: ProfileView) -> LaunchView {
    LaunchView {
        program: "sshpass"@,
        arguments: seq![
            "-p"@,
            profile.password,
            "ssh"@,
            profile.username + "@"@ + profile.host,
            "-p"@,
            decimal_text(profile.port),
        ],
    }
}

/// What is said when the command for a profile has failed: the profile's
/// name, and whom it connects to and where.
pub open spec fn failure_of(profile: ProfileView) -> Seq<char> {
    "别名=>"@ + profile.name + " "@ + address_of(profile.username, profile.host, profile.port)
        + " 连接失败"@
}

/// Makes the command that connects to a profile.
pub fn launch(profile: &Profile) -> (command: Launch)
    ensures
        command@ == launch_of(profile@),
{
    let mut target = profile.username.clone();
    target.append("@");
    target.append(profile.host.as_str());
    let mut arguments: Vec<String> = Vec::new();
    arguments.push(String::from_str("-p"));
    arguments.push(profile.password.clone());
    arguments.push(String::from_str("ssh"));
    arguments.push(target);
    arguments.push(String::from_str("-p"));
    arguments.push(decimal(profile.port));
    let command = Launch { program: String::from_str("sshpass"), arguments };
    assert(command@.arguments =~= launch_of(profile@).arguments);
    command
}

/// Writes what is said when the command for a profile has failed.
pub fn failure_message(profile: &Profile) -> (message: String)
    ensures
        message@ == failure_of(profile@),
{
    let mut message = String::from_str("别名=>");
    message.append(profile.name.as_str());
    message.append(" ");
    message.append(
        address(profile.username.as_str(), profile.host.as_str(), profile.port).as_str(),
    );
    message.append(" 连接失败");
    assert(message@ =~= failure_of(profile@));
    message
}

} // verus!
