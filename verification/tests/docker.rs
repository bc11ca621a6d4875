use pact_extensions::docker::{docker_arguments, run, DockerCommand};

#[test]
fn docker_start_runs_the_broker_image() {
    assert_eq!(
        docker_arguments(DockerCommand::Start),
        vec![
            "run",
            "-d",
            "--name",
            "pact-broker",
            "-p",
            "9292:9292",
            "--env",
            "PACT_BROKER_PORT=9292",
            "--env",
            "PACT_BROKER_DATABASE_URL=sqlite:////tmp/pact_broker.sqlite",
            "--env",
            "'PACT_BROKER_BASE_URL=http://localhost http://localhost http://localhost:9292 http://pact-broker:9292 https://host.docker.internal http://host.docker.internal http://host.docker.internal:9292'",
            "pactfoundation/pact-broker:latest",
        ]
    );
}

#[test]
fn docker_stop_and_remove_name_the_container() {
    assert_eq!(docker_arguments(DockerCommand::Stop), vec!["stop", "pact-broker"]);
    assert_eq!(docker_arguments(DockerCommand::Remove), vec!["rm", "pact-broker"]);
}

#[test]
fn docker_success_ends_with_zero() {
    let outcome = run(DockerCommand::Start, true, Some(0), "ignored");
    assert_eq!(outcome.message, "Docker container started successfully");
    assert_eq!(outcome.exit_code, 0);
    assert_eq!(run(DockerCommand::Stop, true, None, "").message, "Docker container stopped successfully");
    assert_eq!(run(DockerCommand::Remove, true, Some(0), "").message, "Docker container removed successfully");
}

#[test]
fn docker_failed_start_ends_with_the_code_of_docker() {
    let outcome = run(DockerCommand::Start, false, Some(125), "port is already allocated");
    assert_eq!(outcome.message, "Failed to start Docker container: port is already allocated");
    assert_eq!(outcome.exit_code, 125);
    assert_eq!(run(DockerCommand::Start, false, None, "").exit_code, 1);
    assert_eq!(run(DockerCommand::Start, false, Some(256 + 2), "").exit_code, 2);
}

#[test]
fn docker_failed_stop_and_remove_end_with_one() {
    let outcome = run(DockerCommand::Stop, false, Some(125), "no such container");
    assert_eq!(outcome.message, "Failed to stop Docker container: no such container");
    assert_eq!(outcome.exit_code, 1);
    let outcome = run(DockerCommand::Remove, false, Some(2), "x");
    assert_eq!(outcome.message, "Failed to remove Docker container: x");
    assert_eq!(outcome.exit_code, 1);
}
