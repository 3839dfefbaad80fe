use crate::text::{
    begins_with, contains, join, joined, lines_of, nonempty_lines, occurs_in, starts_with, texts,
};
use vstd::prelude::*;
use vstd::string::*;

verus! {

/// What came of running one command: its exit code and what it wrote.
#[derive(Debug)]
pub struct CommandOutcome {
    pub exit_code: i32,
    pub stdout: String,
    pub stderr: String,
}

/// The mathematical value of a [`CommandOutcome`].
pub struct CommandOutcomeView {
    pub exit_code: int,
    pub stdout: Seq<char>,
    pub stderr: Seq<char>,
}

impl View for CommandOutcome {
    type V = CommandOutcomeView;

    open spec fn view(&self) -> CommandOutcomeView {
        CommandOutcomeView {
            exit_code: self.exit_code as int,
            stdout: self.stdout@,
            stderr: self.stderr@,
        }
    }
}

/// One invocation of `docker` in the life of a cluster.
#[derive(Debug, PartialEq, Eq)]
pub enum DockerCommand {
    Version,
    ListContainers,
    StopContainer(String),
    DisconnectNetwork,
    ListNetworks,
    RemoveNetwork,
    CreateNetwork,
    ConnectNetwork,
}

/// The mathematical value of a [`DockerCommand`].
pub enum DockerCommandView {
    Version,
    ListContainers,
    StopContainer(Seq<char>),
    DisconnectNetwork,
    ListNetworks,
    RemoveNetwork,
    CreateNetwork,
    ConnectNetwork,
}

impl View for DockerCommand {
    type V = DockerCommandView;

    open spec fn view(&self) -> DockerCommandView {
        match self {
            DockerCommand::Version => DockerCommandView::Version,
            DockerCommand::ListContainers => DockerCommandView::ListContainers,
            DockerCommand::StopContainer(id) => DockerCommandView::StopContainer(id@),
            DockerCommand::DisconnectNetwork => DockerCommandView::DisconnectNetwork,
            DockerCommand::ListNetworks => DockerCommandView::ListNetworks,
            DockerCommand::RemoveNetwork => DockerCommandView::RemoveNetwork,
            DockerCommand::CreateNetwork => DockerCommandView::CreateNetwork,
            DockerCommand::ConnectNetwork => DockerCommandView::ConnectNetwork,
        }
    }
}

impl DockerCommandView {
    /// The arguments that follow `docker` on the command line.
    pub open spec fn args(self) -> Seq<Seq<char>> {
        match self {
            DockerCommandView::Version => seq!["--version"@],
            DockerCommandView::ListContainers => seq![
                "ps"@,
                "-q"@,
                "--filter"@,
                "ancestor=test_node_image"@,
            ],
            DockerCommandView::StopContainer(id) => seq!["stop"@, "-t"@, "0"@, id],
            DockerCommandView::DisconnectNetwork => seq![
                "network"@,
                "disconnect"@,
                "integration_net"@,
                "subjenkins"@,
            ],
            DockerCommandView::ListNetworks => seq!["network"@, "ls"@],
            DockerCommandView::RemoveNetwork => seq!["network"@, "rm"@, "integration_net"@],
            DockerCommandView::CreateNetwork => seq![
                "network"@,
                "create"@,
                "--subnet=172.18.0.0/16"@,
                "integration_net"@,
            ],
            DockerCommandView::ConnectNetwork => seq![
                "network"@,
                "connect"@,
                "integration_net"@,
                "subjenkins"@,
            ],
        }
    }
}

/// A list of two arguments.
fn two(a: &str, b: &str) -> (result: Vec<String>)
    ensures
        texts(result@) == seq![a@, b@],
{
    let mut result: Vec<String> = Vec::new();
    result.push(String::from_str(a));
    result.push(String::from_str(b));
    result
}

/// A list of four arguments.
fn four(a: &str, b: &str, c: &str, d: &str) -> (result: Vec<String>)
    ensures
        texts(result@) == seq![a@, b@, c@, d@],
{
    let mut result = two(a, b);
    let ghost first = texts(result@);
    result.push(String::from_str(c));
    result.push(String::from_str(d));
    assert(texts(result@) =~= first.push(c@).push(d@));
    result
}

impl DockerCommand {
    /// The arguments that follow `docker` on the command line.
    pub fn args(&self) -> (result: Vec<String>)
        ensures
            texts(result@) == self@.args(),
    {
        match self {
            DockerCommand::Version => {
                let mut result: Vec<String> = Vec::new();
                result.push(String::from_str("--version"));
                result
            },
            DockerCommand::ListContainers => four("ps", "-q", "--filter", "ancestor=test_node_image"),
            DockerCommand::StopContainer(id) => four("stop", "-t", "0", id.as_str()),
            DockerCommand::DisconnectNetwork => four(
                "network",
                "disconnect",
                "integration_net",
                "subjenkins",
            ),
            DockerCommand::ListNetworks => two("network", "ls"),
            DockerCommand::RemoveNetwork => {
                let mut result = two("network", "rm");
                let ghost first = texts(result@);
                result.push(String::from_str("integration_net"));
                assert(texts(result@) =~= first.push("integration_net"@));
                result
            },
            DockerCommand::CreateNetwork => four(
                "network",
                "create",
                "--subnet=172.18.0.0/16",
                "integration_net",
            ),
            DockerCommand::ConnectNetwork => four(
                "network",
                "connect",
                "integration_net",
                "subjenkins",
            ),
        }
    }
}

/// The command whose outcome a procedure waits for, or that it is over.
#[derive(Debug, Clone, Copy, PartialEq, Eq, Structural)]
pub enum Stage {
    Version,
    ListContainers,
    StopContainers,
    DisconnectNetwork,
    ListNetworks,
    RemoveNetwork,
    CreateNetwork,
    ConnectNetwork,
    Finished,
}

/// What a procedure asks for next: one more command, or nothing, with its
/// result.
#[derive(Debug, PartialEq, Eq)]
pub enum Next {
    Run(DockerCommand),
    Finished(Result<(), String>),
}

/// The mathematical value of a [`Next`].
pub enum NextView {
    Run(DockerCommandView),
    Finished(Result<(), Seq<char>>),
}

impl View for Next {
    type V = NextView;

    open spec fn view(&self) -> NextView {
        match self {
            Next::Run(command) => NextView::Run(command@),
            Next::Finished(Ok(())) => NextView::Finished(Ok(())),
            Next::Finished(Err(message)) => NextView::Finished(Err(message@)),
        }
    }
}

/// The mathematical value of a [`ClusterProcedure`].
pub struct ProcedureView {
    pub starting: bool,
    pub in_jenkins: bool,
    pub stage: Stage,
    pub containers: Seq<Seq<char>>,
    pub position: nat,
    pub failures: Seq<Seq<char>>,
}

/// The failure that a command reports: the complaint, then what the command
/// wrote to its error stream.
pub open spec fn complaint(about: Seq<char>, outcome: CommandOutcomeView) -> NextView {
    NextView::Finished(Err(about + outcome.stderr))
}

/// The report of a container that would not stop.
pub open spec fn stop_failure(container: Seq<char>, outcome: CommandOutcomeView) -> Seq<char> {
    "Could not stop node '"@ + container + "': "@ + outcome.stderr
}

impl ProcedureView {
    /// The procedure at another stage.
    pub open spec fn at(self, stage: Stage) -> ProcedureView {
        ProcedureView { stage, ..self }
    }

    /// The procedure, over.
    pub open spec fn over(self) -> ProcedureView {
        self.at(Stage::Finished)
    }

    /// What follows once the network is out of the way: a start-up goes on to
    /// create it anew, a shutdown is done.
    pub open spec fn after_cleanup(self) -> (ProcedureView, NextView) {
        if self.starting {
            (self.at(Stage::CreateNetwork), NextView::Run(DockerCommandView::CreateNetwork))
        } else {
            (self.over(), NextView::Finished(Ok(())))
        }
    }

    /// What follows once every container was told to stop: the failures end
    /// the procedure; without any, the network is taken down, after it was
    /// disconnected where the cluster runs on the build server.
    pub open spec fn after_containers(self) -> (ProcedureView, NextView) {
        if self.failures.len() > 0 {
            (self.over(), NextView::Finished(Err(joined(self.failures, "; "@))))
        } else if self.in_jenkins {
            (
                self.at(Stage::DisconnectNetwork),
                NextView::Run(DockerCommandView::DisconnectNetwork),
            )
        } else {
            (self.at(Stage::ListNetworks), NextView::Run(DockerCommandView::ListNetworks))
        }
    }

    /// What follows when the first container, or the next one, is to be told
    /// to stop.
    pub open spec fn stop_next(self) -> (ProcedureView, NextView) {
        if self.position < self.containers.len() {
            (
                self.at(Stage::StopContainers),
                NextView::Run(DockerCommandView::StopContainer(self.containers[self.position as int])),
            )
        } else {
            self.after_containers()
        }
    }

    /// The procedure after the awaited command came out as `outcome`, and
    /// what it asks for next.
    pub open spec fn advanced(self, outcome: CommandOutcomeView) -> (ProcedureView, NextView) {
        match self.stage {
            Stage::Version => if outcome.exit_code != 0 {
                (self.over(), complaint("Could not get Docker version: "@, outcome))
            } else {
                (self.at(Stage::ListContainers), NextView::Run(DockerCommandView::ListContainers))
            },
            Stage::ListContainers => if outcome.exit_code != 0 {
                (self.over(), complaint("Could not stop running nodes: "@, outcome))
            } else {
                ProcedureView {
                    containers: nonempty_lines(outcome.stdout),
                    position: 0,
                    failures: Seq::empty(),
                    ..self
                }.stop_next()
            },
            Stage::StopContainers => if self.position < self.containers.len() {
                ProcedureView {
                    position: self.position + 1,
                    failures: if outcome.exit_code == 0 {
                        self.failures
                    } else {
                        self.failures.push(
                            stop_failure(self.containers[self.position as int], outcome),
                        )
                    },
                    ..self
                }.stop_next()
            } else {
                self.after_containers()
            },
            Stage::DisconnectNetwork => (
                self.at(Stage::ListNetworks),
                NextView::Run(DockerCommandView::ListNetworks),
            ),
            Stage::ListNetworks => if outcome.exit_code != 0 {
                (self.over(), complaint("Could not list networks: "@, outcome))
            } else if occurs_in(outcome.stdout, "integration_net"@) {
                (self.at(Stage::RemoveNetwork), NextView::Run(DockerCommandView::RemoveNetwork))
            } else {
                self.after_cleanup()
            },
            Stage::RemoveNetwork => if outcome.exit_code == 0 || begins_with(
                outcome.stderr,
                "Error: No such network: integration_net"@,
            ) {
                self.after_cleanup()
            } else {
                (self.over(), complaint("Could not remove network integration_net: "@, outcome))
            },
            Stage::CreateNetwork => if outcome.exit_code != 0 {
                (self.over(), complaint("Could not create network integration_net: "@, outcome))
            } else if self.in_jenkins {
                (self.at(Stage::ConnectNetwork), NextView::Run(DockerCommandView::ConnectNetwork))
            } else {
                (self.over(), NextView::Finished(Ok(())))
            },
            Stage::ConnectNetwork => if outcome.exit_code != 0 {
                (
                    self.over(),
                    complaint("Could not connect subjenkins to integration_net: "@, outcome),
                )
            } else {
                (self.over(), NextView::Finished(Ok(())))
            },
            Stage::Finished => (self, NextView::Finished(Ok(()))),
        }
    }

    /// Whether a command's outcome is awaited.
    pub open spec fn awaits(self) -> bool {
        self.stage != Stage::Finished
    }

    /// How far the stage is from the end: no step leads to a stage that is
    /// farther.
    pub open spec fn stages_left(self) -> nat {
        match self.stage {
            Stage::Version => 8,
            Stage::ListContainers => 7,
            Stage::StopContainers => 6,
            Stage::DisconnectNetwork => 5,
            Stage::ListNetworks => 4,
            Stage::RemoveNetwork => 3,
            Stage::CreateNetwork => 2,
            Stage::ConnectNetwork => 1,
            Stage::Finished => 0,
        }
    }

    /// The containers that are still to be told to stop.
    pub open spec fn containers_left(self) -> nat {
        if self.position <= self.containers.len() {
            (self.containers.len() - self.position) as nat
        } else {
            0
        }
    }

    /// Whether the procedure is nearer its end than it was at `earlier`: at a
    /// later stage, or with fewer containers left to stop.
    pub open spec fn nearer_the_end_than(self, earlier: ProcedureView) -> bool {
        ||| self.stages_left() < earlier.stages_left()
        ||| (self.stages_left() == earlier.stages_left() && self.containers_left()
            < earlier.containers_left())
    }

    /// Well-formedness: while containers are told to stop, one of them is
    /// awaited.
    pub open spec fn wf(self) -> bool {
        self.stage == Stage::StopContainers ==> self.position < self.containers.len()
    }
}

/// Brings a cluster's surroundings up or takes them down, one `docker`
/// command at a time. The procedure decides; whoever owns it runs each
/// command and reports how it came out.
///
/// A start-up checks that `docker` answers, clears away what an earlier run
/// left (its containers, then its network), creates the network, and on the
/// build server connects it. A shutdown only clears away.
#[derive(Debug)]
pub struct ClusterProcedure {
    starting: bool,
    in_jenkins: bool,
    stage: Stage,
    containers: Vec<String>,
    position: usize,
    failures: Vec<String>,
}

impl View for ClusterProcedure {
    type V = ProcedureView;

    closed spec fn view(&self) -> ProcedureView {
        ProcedureView {
            starting: self.starting,
            in_jenkins: self.in_jenkins,
            stage: self.stage,
            containers: texts(self.containers@),
            position: self.position as nat,
            failures: texts(self.failures@),
        }
    }
}

impl ClusterProcedure {
    /// A start-up, and its first command.
    pub fn start_up(in_jenkins: bool) -> (result: (ClusterProcedure, DockerCommand))
        ensures
            result.0@ == (ProcedureView {
                starting: true,
                in_jenkins,
                stage: Stage::Version,
                containers: Seq::empty(),
                position: 0,
                failures: Seq::empty(),
            }),
            result.0@.wf(),
            result.1@ == DockerCommandView::Version,
    {
        let procedure = ClusterProcedure {
            starting: true,
            in_jenkins,
            stage: Stage::Version,
            containers: Vec::new(),
            position: 0,
            failures: Vec::new(),
        };
        assert(texts(procedure.failures@) =~= Seq::<Seq<char>>::empty());
        (procedure, DockerCommand::Version)
    }

    /// A shutdown, and its first command.
    pub fn shut_down(in_jenkins: bool) -> (result: (ClusterProcedure, DockerCommand))
        ensures
            result.0@ == (ProcedureView {
                starting: false,
                in_jenkins,
                stage: Stage::ListContainers,
                containers: Seq::empty(),
                position: 0,
                failures: Seq::empty(),
            }),
            result.0@.wf(),
            result.1@ == DockerCommandView::ListContainers,
    {
        let procedure = ClusterProcedure {
            starting: false,
            in_jenkins,
            stage: Stage::ListContainers,
            containers: Vec::new(),
            position: 0,
            failures: Vec::new(),
        };
        assert(texts(procedure.failures@) =~= Seq::<Seq<char>>::empty());
        (procedure, DockerCommand::ListContainers)
    }

    /// Whether the procedure is over.
    pub fn is_finished(&self) -> (result: bool)
        ensures
            result == !self@.awaits(),
    {
        self.stage == Stage::Finished
    }

    /// Ends the procedure with the complaint about a failed command.
    fn fail(&mut self, about: &str, outcome: &CommandOutcome) -> (result: Next)
        ensures
            final(self)@ == old(self)@.over(),
            result@ == complaint(about@, outcome@),
    {
        self.stage = Stage::Finished;
        Next::Finished(Err(String::from_str(about).concat(outcome.stderr.as_str())))
    }

    /// Ends the procedure in success.
    fn succeed(&mut self) -> (result: Next)
        ensures
            final(self)@ == old(self)@.over(),
            result@ == NextView::Finished(Ok(())),
    {
        self.stage = Stage::Finished;
        Next::Finished(Ok(()))
    }

    /// Moves on to the stage that awaits `command`.
    fn go_on(&mut self, stage: Stage, command: DockerCommand) -> (result: Next)
        ensures
            final(self)@ == old(self)@.at(stage),
            result@ == NextView::Run(command@),
    {
        self.stage = stage;
        Next::Run(command)
    }

    fn after_cleanup(&mut self) -> (result: Next)
        ensures
            (final(self)@, result@) == old(self)@.after_cleanup(),
    {
        if self.starting {
            self.go_on(Stage::CreateNetwork, DockerCommand::CreateNetwork)
        } else {
            self.succeed()
        }
    }

    fn after_containers(&mut self) -> (result: Next)
        ensures
            (final(self)@, result@) == old(self)@.after_containers(),
    {
        if self.failures.len() > 0 {
            self.stage = Stage::Finished;
            Next::Finished(Err(join(&self.failures, "; ")))
        } else if self.in_jenkins {
            self.go_on(Stage::DisconnectNetwork, DockerCommand::DisconnectNetwork)
        } else {
            self.go_on(Stage::ListNetworks, DockerCommand::ListNetworks)
        }
    }

    fn stop_next(&mut self) -> (result: Next)
        ensures
            (final(self)@, result@) == old(self)@.stop_next(),
    {
        if self.position < self.containers.len() {
            let container = self.containers[self.position].clone();
            self.go_on(Stage::StopContainers, DockerCommand::StopContainer(container))
        } else {
            self.after_containers()
        }
    }

    /// Takes the outcome of the awaited command and says what is next. Each
    /// step brings the end nearer, so a procedure that is driven on always
    /// finishes.
    pub fn advance(&mut self, outcome: &CommandOutcome) -> (result: Next)
        requires
            old(self)@.wf(),
            old(self)@.awaits(),
        ensures
            (final(self)@, result@) == old(self)@.advanced(outcome@),
            final(self)@.wf(),
            result@ is Finished <==> !final(self)@.awaits(),
            final(self)@.nearer_the_end_than(old(self)@),
    {
        match self.stage {
            Stage::Version => if outcome.exit_code != 0 {
                self.fail("Could not get Docker version: ", outcome)
            } else {
                self.go_on(Stage::ListContainers, DockerCommand::ListContainers)
            },
            Stage::ListContainers => if outcome.exit_code != 0 {
                self.fail("Could not stop running nodes: ", outcome)
            } else {
                self.containers = lines_of(outcome.stdout.as_str());
                self.position = 0;
                self.failures = Vec::new();
                assert(texts(self.failures@) =~= Seq::<Seq<char>>::empty());
                self.stop_next()
            },
            Stage::StopContainers => {
                if outcome.exit_code != 0 {
                    let ghost before = texts(self.failures@);
                    let failure = String::from_str("Could not stop node '").concat(
                        self.containers[self.position].as_str(),
                    ).concat("': ").concat(outcome.stderr.as_str());
                    self.failures.push(failure);
                    assert(texts(self.failures@) =~= before.push(failure@));
                }
                let count = self.containers.len();
                assert(self.position < count);
                self.position = self.position + 1;
                self.stop_next()
            },
            Stage::DisconnectNetwork => self.go_on(Stage::ListNetworks, DockerCommand::ListNetworks),
            Stage::ListNetworks => if outcome.exit_code != 0 {
                self.fail("Could not list networks: ", outcome)
            } else if contains(outcome.stdout.as_str(), "integration_net") {
                self.go_on(Stage::RemoveNetwork, DockerCommand::RemoveNetwork)
            } else {
                self.after_cleanup()
            },
            Stage::RemoveNetwork => if outcome.exit_code == 0 || starts_with(
                outcome.stderr.as_str(),
                "Error: No such network: integration_net",
            ) {
                self.after_cleanup()
            } else {
                self.fail("Could not remove network integration_net: ", outcome)
            },
            Stage::CreateNetwork => if outcome.exit_code != 0 {
                self.fail("Could not create network integration_net: ", outcome)
            } else if self.in_jenkins {
                self.go_on(Stage::ConnectNetwork, DockerCommand::ConnectNetwork)
            } else {
                self.succeed()
            },
            Stage::ConnectNetwork => if outcome.exit_code != 0 {
                self.fail("Could not connect subjenkins to integration_net: ", outcome)
            } else {
                self.succeed()
            },
            Stage::Finished => {
                proof {
                    assert(false);
                }
                vstd::pervasive::unreached()
            },
        }
    }
}

} // verus!
