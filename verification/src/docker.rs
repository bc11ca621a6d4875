//! The broker as a Docker container: the command line for each request, and
//! what the outcome of the command means.

use crate::effect::strings_view;
use crate::invoke::{exit_byte, exit_code, relayed_code};
use crate::text::join2;
use vstd::prelude::*;
use vstd::string::*;

verus! {

/// What to do with the broker container.
#[derive(Debug, Clone, Copy, PartialEq, Eq, Structural)]
pub enum DockerCommand {
    Start,
    Stop,
    Remove,
}

/// The arguments with which `docker` carries out a request.
pub open spec fn docker_args(command: DockerCommand) -> Seq<Seq<char>> {
    match command {
        DockerCommand::Start => seq![
            "run"@,
            "-d"@,
            "--name"@,
            "pact-broker"@,
            "-p"@,
            "9292:9292"@,
            "--env"@,
            "PACT_BROKER_PORT=9292"@,
            "--env"@,
            "PACT_BROKER_DATABASE_URL=sqlite:////tmp/pact_broker.sqlite"@,
            "--env"@,
            "'PACT_BROKER_BASE_URL=http://localhost http://localhost http://localhost:9292 http://pact-broker:9292 https://host.docker.internal http://host.docker.internal http://host.docker.internal:9292'"@,
            "pactfoundation/pact-broker:latest"@,
        ],
        DockerCommand::Stop => seq!["stop"@, "pact-broker"@],
        DockerCommand::Remove => seq!["rm"@, "pact-broker"@],
    }
}

/// What is said when `docker` succeeded.
pub open spec fn docker_success(command: DockerCommand) -> Seq<char> {
    match command {
        DockerCommand::Start => "Docker container started successfully"@,
        DockerCommand::Stop => "Docker container stopped successfully"@,
        DockerCommand::Remove => "Docker container removed successfully"@,
    }
}

/// What is said when `docker` failed, before its own words.
pub open spec fn docker_failure(command: DockerCommand) -> Seq<char> {
    match command {
        DockerCommand::Start => "Failed to start Docker container: "@,
        DockerCommand::Stop => "Failed to stop Docker container: "@,
        DockerCommand::Remove => "Failed to remove Docker container: "@,
    }
}

/// How a request for the broker container ended.
pub struct DockerOutcome {
    /// What to tell the user.
    pub message: String,
    /// The exit code of the process: zero if the request succeeded.
    pub exit_code: u8,
}

/// What the end of `docker` means. A failed start ends the process with the
/// code of `docker`, modulo 256, or with one where it has none; a failed
/// stop or removal ends it with one.
pub open spec fn docker_outcome(
    command: DockerCommand,
    success: bool,
    code: Option<i32>,
    errors: Seq<char>,
) -> (Seq<char>, u8) {
    if success {
        (docker_success(command), 0u8)
    } else {
        (
            docker_failure(command) + errors,
            match command {
                DockerCommand::Start => (relayed_code(false, code) % 256) as u8,
                _ => 1u8,
            },
        )
    }
}

/// The arguments with which `docker` carries out a request.
pub fn docker_arguments(command: DockerCommand) -> (r: Vec<String>)
    ensures
        strings_view(r@) == docker_args(command),
{
    let mut args: Vec<String> = Vec::new();
    match command {
        DockerCommand::Start => {
            args.push("run".to_owned());
            args.push("-d".to_owned());
            args.push("--name".to_owned());
            args.push("pact-broker".to_owned());
            args.push("-p".to_owned());
            args.push("9292:9292".to_owned());
            args.push("--env".to_owned());
            args.push("PACT_BROKER_PORT=9292".to_owned());
            args.push("--env".to_owned());
            args.push("PACT_BROKER_DATABASE_URL=sqlite:////tmp/pact_broker.sqlite".to_owned());
            args.push("--env".to_owned());
            args.push(
                "'PACT_BROKER_BASE_URL=http://localhost http://localhost http://localhost:9292 http://pact-broker:9292 https://host.docker.internal http://host.docker.internal http://host.docker.internal:9292'".to_owned(),
            );
            args.push("pactfoundation/pact-broker:latest".to_owned());
        },
        DockerCommand::Stop => {
            args.push("stop".to_owned());
            args.push("pact-broker".to_owned());
        },
        DockerCommand::Remove => {
            args.push("rm".to_owned());
            args.push("pact-broker".to_owned());
        },
    }
    assert(strings_view(args@) =~= docker_args(command));
    args
}

/// What the end of `docker` means: `success` and `code` say how it ended,
/// `errors` is what it wrote to its error stream.
pub fn run(command: DockerCommand, success: bool, code: Option<i32>, errors: &str) -> (r:
    DockerOutcome)
    ensures
        (r.message@, r.exit_code) == docker_outcome(command, success, code, errors@),
{
    if success {
        let message = match command {
            DockerCommand::Start => "Docker container started successfully",
            DockerCommand::Stop => "Docker container stopped successfully",
            DockerCommand::Remove => "Docker container removed successfully",
        };
        DockerOutcome { message: message.to_owned(), exit_code: 0 }
    } else {
        let prefix = match command {
            DockerCommand::Start => "Failed to start Docker container: ",
            DockerCommand::Stop => "Failed to stop Docker container: ",
            DockerCommand::Remove => "Failed to remove Docker container: ",
        };
        let exit = match command {
            DockerCommand::Start => exit_byte(exit_code(false, code)),
            _ => 1,
        };
        DockerOutcome { message: join2(prefix, errors), exit_code: exit }
    }
}

} // verus!
