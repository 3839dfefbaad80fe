use pulsecloak_node::cluster_commands::{ClusterProcedure, CommandOutcome, DockerCommand, Next};

fn outcome(exit_code: i32, stdout: &str, stderr: &str) -> CommandOutcome {
    CommandOutcome {
        exit_code,
        stdout: stdout.to_string(),
        stderr: stderr.to_string(),
    }
}

fn success() -> CommandOutcome {
    outcome(0, "", "")
}

fn drive(procedure: &mut ClusterProcedure, outcomes: Vec<CommandOutcome>) -> Vec<Next> {
    outcomes
        .iter()
        .map(|one| {
            assert!(!procedure.is_finished());
            procedure.advance(one)
        })
        .collect()
}

#[test]
fn each_command_has_its_fixed_arguments() {
    assert_eq!(DockerCommand::Version.args(), vec!["--version"]);
    assert_eq!(
        DockerCommand::ListContainers.args(),
        vec!["ps", "-q", "--filter", "ancestor=test_node_image"]
    );
    assert_eq!(
        DockerCommand::StopContainer("abc123".to_string()).args(),
        vec!["stop", "-t", "0", "abc123"]
    );
    assert_eq!(
        DockerCommand::DisconnectNetwork.args(),
        vec!["network", "disconnect", "integration_net", "subjenkins"]
    );
    assert_eq!(DockerCommand::ListNetworks.args(), vec!["network", "ls"]);
    assert_eq!(
        DockerCommand::RemoveNetwork.args(),
        vec!["network", "rm", "integration_net"]
    );
    assert_eq!(
        DockerCommand::CreateNetwork.args(),
        vec!["network", "create", "--subnet=172.18.0.0/16", "integration_net"]
    );
    assert_eq!(
        DockerCommand::ConnectNetwork.args(),
        vec!["network", "connect", "integration_net", "subjenkins"]
    );
}

#[test]
fn a_start_up_on_a_clean_machine_runs_four_commands() {
    let (mut subject, first) = ClusterProcedure::start_up(false);

    let nexts = drive(
        &mut subject,
        vec![
            outcome(0, "Docker version 24.0.7\n", ""),
            outcome(0, "", ""),
            outcome(0, "NETWORK ID   NAME   DRIVER\nabc   bridge   bridge\n", ""),
            success(),
        ],
    );

    assert_eq!(first, DockerCommand::Version);
    assert_eq!(
        nexts,
        vec![
            Next::Run(DockerCommand::ListContainers),
            Next::Run(DockerCommand::ListNetworks),
            Next::Run(DockerCommand::CreateNetwork),
            Next::Finished(Ok(())),
        ]
    );
    assert!(subject.is_finished());
}

#[test]
fn a_start_up_on_the_build_server_disconnects_and_connects_the_network() {
    let (mut subject, first) = ClusterProcedure::start_up(true);

    let nexts = drive(
        &mut subject,
        vec![
            success(),
            outcome(0, "c1\n\nc2\n", ""),
            success(),
            success(),
            outcome(1, "", "ignored"),
            outcome(0, "x integration_net bridge", ""),
            success(),
            success(),
            success(),
        ],
    );

    assert_eq!(first, DockerCommand::Version);
    assert_eq!(
        nexts,
        vec![
            Next::Run(DockerCommand::ListContainers),
            Next::Run(DockerCommand::StopContainer("c1".to_string())),
            Next::Run(DockerCommand::StopContainer("c2".to_string())),
            Next::Run(DockerCommand::DisconnectNetwork),
            Next::Run(DockerCommand::ListNetworks),
            Next::Run(DockerCommand::RemoveNetwork),
            Next::Run(DockerCommand::CreateNetwork),
            Next::Run(DockerCommand::ConnectNetwork),
            Next::Finished(Ok(())),
        ]
    );
}

#[test]
fn a_shutdown_only_clears_away() {
    let (mut subject, first) = ClusterProcedure::shut_down(false);

    let nexts = drive(
        &mut subject,
        vec![
            outcome(0, "c1", ""),
            success(),
            outcome(0, "integration_net", ""),
            success(),
        ],
    );

    assert_eq!(first, DockerCommand::ListContainers);
    assert_eq!(
        nexts,
        vec![
            Next::Run(DockerCommand::StopContainer("c1".to_string())),
            Next::Run(DockerCommand::ListNetworks),
            Next::Run(DockerCommand::RemoveNetwork),
            Next::Finished(Ok(())),
        ]
    );
}

#[test]
fn a_failing_version_check_ends_the_start_up() {
    let (mut subject, _) = ClusterProcedure::start_up(false);

    let next = subject.advance(&outcome(127, "", "docker: not found"));

    assert_eq!(
        next,
        Next::Finished(Err(
            "Could not get Docker version: docker: not found".to_string()
        ))
    );
    assert!(subject.is_finished());
}

#[test]
fn a_failing_container_listing_ends_the_procedure() {
    let (mut subject, _) = ClusterProcedure::shut_down(false);

    let next = subject.advance(&outcome(1, "", "daemon down"));

    assert_eq!(
        next,
        Next::Finished(Err("Could not stop running nodes: daemon down".to_string()))
    );
}

#[test]
fn every_container_is_told_to_stop_and_the_failures_are_joined() {
    let (mut subject, _) = ClusterProcedure::shut_down(true);

    let nexts = drive(
        &mut subject,
        vec![
            outcome(0, "c1\nc2\nc3\n", ""),
            outcome(1, "", "busy"),
            success(),
            outcome(2, "", "gone"),
        ],
    );

    assert_eq!(
        nexts,
        vec![
            Next::Run(DockerCommand::StopContainer("c1".to_string())),
            Next::Run(DockerCommand::StopContainer("c2".to_string())),
            Next::Run(DockerCommand::StopContainer("c3".to_string())),
            Next::Finished(Err(
                "Could not stop node 'c1': busy; Could not stop node 'c3': gone".to_string()
            )),
        ]
    );
}

#[test]
fn a_failing_network_listing_ends_the_procedure() {
    let (mut subject, _) = ClusterProcedure::shut_down(false);

    let nexts = drive(&mut subject, vec![success(), outcome(1, "", "no daemon")]);

    assert_eq!(
        nexts,
        vec![
            Next::Run(DockerCommand::ListNetworks),
            Next::Finished(Err("Could not list networks: no daemon".to_string())),
        ]
    );
}

#[test]
fn a_network_that_is_already_gone_counts_as_removed() {
    let (mut subject, _) = ClusterProcedure::shut_down(false);

    let nexts = drive(
        &mut subject,
        vec![
            success(),
            outcome(0, "integration_net", ""),
            outcome(1, "", "Error: No such network: integration_net\n"),
        ],
    );

    assert_eq!(nexts[2], Next::Finished(Ok(())));
}

#[test]
fn a_network_that_cannot_be_removed_ends_the_procedure() {
    let (mut subject, _) = ClusterProcedure::start_up(false);

    let nexts = drive(
        &mut subject,
        vec![
            success(),
            success(),
            outcome(0, "integration_net", ""),
            outcome(1, "", "network has active endpoints"),
        ],
    );

    assert_eq!(
        nexts[3],
        Next::Finished(Err(
            "Could not remove network integration_net: network has active endpoints".to_string()
        ))
    );
}

#[test]
fn a_network_that_cannot_be_created_or_connected_ends_the_start_up() {
    let (mut first, _) = ClusterProcedure::start_up(false);
    let (mut second, _) = ClusterProcedure::start_up(true);

    let created = drive(
        &mut first,
        vec![success(), success(), success(), outcome(1, "", "pool overlaps")],
    );
    let connected = drive(
        &mut second,
        vec![
            success(),
            success(),
            success(),
            success(),
            success(),
            outcome(1, "", "no such container"),
        ],
    );

    assert_eq!(
        created[3],
        Next::Finished(Err(
            "Could not create network integration_net: pool overlaps".to_string()
        ))
    );
    assert_eq!(
        connected[5],
        Next::Finished(Err(
            "Could not connect subjenkins to integration_net: no such container".to_string()
        ))
    );
}
