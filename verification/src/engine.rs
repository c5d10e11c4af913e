//! The engine handle and the order in which a simulation drives the engine.
//!
//! The engine is called from outside this library. A simulation is therefore
//! a sequence of steps: each step either names the next call to make on the
//! engine, or ends the simulation with its result. The caller makes the call
//! and resumes the simulation with the engine's reply.

use crate::circuit::{
    circuit_lines, command_line, contains_nul, has_nul, marshalled, terminated,
};
use crate::error::{Error, ErrorModel};
use crate::simulation::{
    all_populated, every_populated, vectors_of, Simulation, SimulationModel,
};
use crate::sink::{appended, route, stream_of, Stream};
use crate::vector::RawVector;
use vstd::prelude::*;
use vstd::string::{StringExecFns, StringSliceAdditionalSpecFns};

verus! {

/// How far the simulation in progress has come.
#[derive(Clone, Copy, Debug, PartialEq, Eq, Structural)]
pub enum Phase {
    /// No simulation is in progress.
    Idle,
    /// The circuit is with the engine.
    Loading,
    /// The command is with the engine.
    Running,
    /// The engine's result vectors are being read.
    Collecting,
}

/// A call to make on the engine.
#[derive(Debug)]
pub enum Request {
    /// Submit a circuit: its lines, each a null-terminated string.
    LoadCircuit(Vec<Vec<u8>>),
    /// Execute a command, a null-terminated string.
    RunCommand(Vec<u8>),
    /// Read all vectors of the current result set.
    ReadVectors,
}

/// What the engine answered to a call.
#[derive(Debug)]
pub enum Reply {
    /// The status that a submission returned; zero is success.
    Status(i32),
    /// The vectors of the current result set, in the engine's order.
    Vectors(Vec<RawVector>),
}

/// What a simulation does next.
#[derive(Debug)]
pub enum Step {
    /// The engine is to be called.
    Call(Request),
    /// The simulation is over.
    Done(Result<Simulation, Error>),
}

/// A call on the engine as a mathematical value.
pub ghost enum RequestModel {
    LoadCircuit(Seq<Seq<u8>>),
    RunCommand(Seq<u8>),
    ReadVectors,
}

/// A reply as a mathematical value.
pub ghost enum ReplyModel {
    Status(i32),
    Vectors(Seq<RawVector>),
}

/// A step as a mathematical value.
pub ghost enum StepModel {
    Call(RequestModel),
    Done(Result<SimulationModel, ErrorModel>),
}

impl View for Request {
    type V = RequestModel;

    open spec fn view(&self) -> RequestModel {
        match self {
            Request::LoadCircuit(lines) => RequestModel::LoadCircuit(
                Seq::new(lines@.len(), |i: int| lines@[i]@),
            ),
            Request::RunCommand(line) => RequestModel::RunCommand(line@),
            Request::ReadVectors => RequestModel::ReadVectors,
        }
    }
}

impl View for Reply {
    type V = ReplyModel;

    open spec fn view(&self) -> ReplyModel {
        match self {
            Reply::Status(status) => ReplyModel::Status(*status),
            Reply::Vectors(raws) => ReplyModel::Vectors(raws@),
        }
    }
}

impl View for Step {
    type V = StepModel;

    open spec fn view(&self) -> StepModel {
        match self {
            Step::Call(request) => StepModel::Call(request@),
            Step::Done(Ok(simulation)) => StepModel::Done(Ok(simulation@)),
            Step::Done(Err(error)) => StepModel::Done(Err(error@)),
        }
    }
}

/// The engine handle as a mathematical value.
pub ghost struct NgSpiceModel {
    /// The standard output gathered since the simulation began.
    pub stdout: Seq<char>,
    /// The error output gathered since the simulation began.
    pub stderr: Seq<char>,
    /// How far the simulation has come.
    pub phase: Phase,
    /// The command that waits for the circuit to load.
    pub command: Seq<u8>,
}

/// A circuit and a command, as bytes, can be submitted: neither holds a
/// null byte.
pub open spec fn submittable(circuit: Seq<u8>, command: Seq<u8>) -> bool {
    !has_nul(circuit) && !has_nul(command)
}

impl NgSpiceModel {
    /// A handle that has gathered nothing and has no simulation in progress.
    pub open spec fn idle() -> NgSpiceModel {
        NgSpiceModel {
            stdout: Seq::empty(),
            stderr: Seq::empty(),
            phase: Phase::Idle,
            command: Seq::empty(),
        }
    }

    /// The handle once the engine has sent it a line of output.
    pub open spec fn received(self, line: Seq<char>) -> NgSpiceModel {
        match stream_of(line) {
            Stream::Stderr => NgSpiceModel { stderr: appended(self.stderr, line), ..self },
            Stream::Stdout => NgSpiceModel { stdout: appended(self.stdout, line), ..self },
        }
    }

    /// The handle once a simulation of these inputs has been asked for. It
    /// is untouched where the inputs cannot be submitted.
    pub open spec fn started(self, circuit: Seq<u8>, command: Seq<u8>) -> NgSpiceModel {
        if submittable(circuit, command) {
            NgSpiceModel {
                stdout: Seq::empty(),
                stderr: Seq::empty(),
                phase: Phase::Loading,
                command: terminated(command),
            }
        } else {
            self
        }
    }

    /// The first step of a simulation of these inputs.
    pub open spec fn first_step(circuit: Seq<u8>, command: Seq<u8>) -> StepModel {
        if submittable(circuit, command) {
            StepModel::Call(RequestModel::LoadCircuit(marshalled(circuit)))
        } else {
            StepModel::Done(Err(ErrorModel::InvalidStringEncoding))
        }
    }

    /// The reply answers the call that the simulation in progress made last,
    /// and every vector in it has a payload.
    pub open spec fn expects(self, reply: ReplyModel) -> bool {
        match reply {
            ReplyModel::Status(_) => self.phase == Phase::Loading || self.phase == Phase::Running,
            ReplyModel::Vectors(raws) => self.phase == Phase::Collecting && all_populated(raws),
        }
    }

    /// The handle once the simulation has been resumed with a reply.
    pub open spec fn resumed(self, reply: ReplyModel) -> NgSpiceModel {
        match reply {
            ReplyModel::Status(status) => if status != 0 {
                NgSpiceModel { phase: Phase::Idle, command: Seq::empty(), ..self }
            } else if self.phase == Phase::Loading {
                NgSpiceModel { phase: Phase::Running, command: Seq::empty(), ..self }
            } else {
                NgSpiceModel { phase: Phase::Collecting, ..self }
            },
            ReplyModel::Vectors(_) => NgSpiceModel::idle(),
        }
    }

    /// The step that follows a reply.
    pub open spec fn next_step(self, reply: ReplyModel) -> StepModel {
        match reply {
            ReplyModel::Status(status) => if self.phase == Phase::Loading {
                if status == 0 {
                    StepModel::Call(RequestModel::RunCommand(self.command))
                } else {
                    StepModel::Done(Err(ErrorModel::InvalidCircuit(self.stderr)))
                }
            } else {
                if status == 0 {
                    StepModel::Call(RequestModel::ReadVectors)
                } else {
                    StepModel::Done(Err(ErrorModel::Unknown(self.stderr)))
                }
            },
            ReplyModel::Vectors(raws) => StepModel::Done(
                Ok(
                    SimulationModel {
                        stdout: self.stdout,
                        stderr: self.stderr,
                        vectors: vectors_of(raws),
                    },
                ),
            ),
        }
    }
}

/// Interface to ngSPICE: the handle that gathers the engine's diagnostic
/// output and keeps track of the simulation in progress.
#[derive(Debug)]
pub struct NgSpice {
    stdout: String,
    stderr: String,
    phase: Phase,
    command: Vec<u8>,
}

impl View for NgSpice {
    type V = NgSpiceModel;

    closed spec fn view(&self) -> NgSpiceModel {
        NgSpiceModel {
            stdout: self.stdout@,
            stderr: self.stderr@,
            phase: self.phase,
            command: self.command@,
        }
    }
}

impl NgSpice {
    /// A handle that has gathered nothing and has no simulation in progress.
    pub fn new() -> (handle: NgSpice)
        ensures
            handle@ == NgSpiceModel::idle(),
    {
        NgSpice {
            stdout: String::new(),
            stderr: String::new(),
            phase: Phase::Idle,
            command: Vec::new(),
        }
    }

    /// The standard output gathered since the simulation began.
    pub fn stdout(&self) -> (text: &str)
        ensures
            text@ == self@.stdout,
    {
        self.stdout.as_str()
    }

    /// The error output gathered since the simulation began.
    pub fn stderr(&self) -> (text: &str)
        ensures
            text@ == self@.stderr,
    {
        self.stderr.as_str()
    }

    /// How far the simulation in progress has come.
    pub fn phase(&self) -> (phase: Phase)
        ensures
            phase == self@.phase,
    {
        self.phase
    }

    /// Takes one line of the engine's output into the buffer of its stream.
    pub fn send_char(&mut self, line: &str)
        ensures
            final(self)@ == old(self)@.received(line@),
    {
        let (stream, content) = route(line);
        match stream {
            Stream::Stderr => {
                self.stderr.append(content);
                self.stderr.append("\n");
            },
            Stream::Stdout => {
                self.stdout.append(content);
                self.stdout.append("\n");
            },
        }
    }

    /// Accepts a circuit that can be laid out for the engine.
    pub fn check_circuit(circuit: &str) -> (checked: Result<(), Error>)
        ensures
            checked is Ok <==> !has_nul(circuit.spec_bytes()),
            checked is Err ==> checked->Err_0 == Error::InvalidStringEncoding,
    {
        if contains_nul(circuit) {
            return Err(Error::InvalidStringEncoding);
        }
        Ok(())
    }

    /// Accepts a command that can be laid out for the engine.
    pub fn check_command(cmd: &str) -> (checked: Result<(), Error>)
        ensures
            checked is Ok <==> !has_nul(cmd.spec_bytes()),
            checked is Err ==> checked->Err_0 == Error::InvalidStringEncoding,
    {
        if contains_nul(cmd) {
            return Err(Error::InvalidStringEncoding);
        }
        Ok(())
    }

    /// Judges the status that the engine returned for the circuit. A
    /// refusal carries the error output gathered so far.
    pub fn load_circuit(&self, status: i32) -> (loaded: Result<(), Error>)
        ensures
            loaded is Ok <==> status == 0,
            loaded is Err ==> loaded->Err_0@ == ErrorModel::InvalidCircuit(self@.stderr),
    {
        if status == 0 {
            Ok(())
        } else {
            Err(Error::InvalidCircuit(self.stderr.clone()))
        }
    }

    /// Judges the status that the engine returned for the command. A
    /// refusal carries the error output gathered so far.
    pub fn command(&self, status: i32) -> (executed: Result<(), Error>)
        ensures
            executed is Ok <==> status == 0,
            executed is Err ==> executed->Err_0@ == ErrorModel::Unknown(self@.stderr),
    {
        if status == 0 {
            Ok(())
        } else {
            Err(Error::Unknown(self.stderr.clone()))
        }
    }

    /// Begins a simulation: parses a new circuit and executes a simulation
    /// command on it.
    ///
    /// Inputs that cannot be laid out for the engine end the simulation at
    /// once, with the handle untouched and no call on the engine. Otherwise
    /// the output gathered before is dropped, and the first step asks for
    /// the circuit to be submitted.
    pub fn simulate(&mut self, circuit: &str, command: &str) -> (step: Step)
        ensures
            final(self)@ == old(self)@.started(circuit.spec_bytes(), command.spec_bytes()),
            step@ == NgSpiceModel::first_step(circuit.spec_bytes(), command.spec_bytes()),
    {
        if let Err(error) = NgSpice::check_circuit(circuit) {
            return Step::Done(Err(error));
        }
        if let Err(error) = NgSpice::check_command(command) {
            return Step::Done(Err(error));
        }
        self.stdout = String::new();
        self.stderr = String::new();
        self.command = command_line(command);
        self.phase = Phase::Loading;
        let lines = circuit_lines(circuit);
        assert(Seq::new(lines@.len(), |i: int| lines@[i]@) =~= marshalled(circuit.spec_bytes()));
        Step::Call(Request::LoadCircuit(lines))
    }

    /// Tells whether a reply can be handed to `resume`.
    pub fn accepts(&self, reply: &Reply) -> (accepted: bool)
        ensures
            accepted == self@.expects(reply@),
    {
        match reply {
            Reply::Status(_) => self.phase == Phase::Loading || self.phase == Phase::Running,
            Reply::Vectors(raws) => self.phase == Phase::Collecting && every_populated(raws),
        }
    }

    /// Resumes the simulation in progress with the engine's reply to the
    /// call that the last step asked for.
    ///
    /// A status of zero leads to the next call; any other ends the
    /// simulation with the error output gathered so far. The vectors end it
    /// with its results: the vectors by name and the output gathered, which
    /// leaves the handle.
    pub fn resume(&mut self, reply: Reply) -> (step: Step)
        requires
            old(self)@.expects(reply@),
        ensures
            final(self)@ == old(self)@.resumed(reply@),
            step@ == old(self)@.next_step(reply@),
    {
        match reply {
            Reply::Status(status) => {
                if self.phase == Phase::Loading {
                    match self.load_circuit(status) {
                        Ok(()) => {
                            let mut line: Vec<u8> = Vec::new();
                            core::mem::swap(&mut self.command, &mut line);
                            self.phase = Phase::Running;
                            Step::Call(Request::RunCommand(line))
                        },
                        Err(error) => {
                            self.command = Vec::new();
                            self.phase = Phase::Idle;
                            Step::Done(Err(error))
                        },
                    }
                } else {
                    match self.command(status) {
                        Ok(()) => {
                            self.phase = Phase::Collecting;
                            Step::Call(Request::ReadVectors)
                        },
                        Err(error) => {
                            self.command = Vec::new();
                            self.phase = Phase::Idle;
                            Step::Done(Err(error))
                        },
                    }
                }
            },
            Reply::Vectors(raws) => {
                let mut simulation = Simulation::default();
                simulation.insert_all(raws);
                core::mem::swap(&mut self.stdout, &mut simulation.stdout);
                core::mem::swap(&mut self.stderr, &mut simulation.stderr);
                self.command = Vec::new();
                self.phase = Phase::Idle;
                Step::Done(Ok(simulation))
            },
        }
    }
}

} // verus!
