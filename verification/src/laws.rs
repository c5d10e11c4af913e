//! What holds of whole simulations, whatever the engine does.
//!
//! A simulation is described here from its beginning to its end: the
//! inputs, everything the engine sends and answers on the way, and the
//! result that the steps of the handle then lead to.

use crate::circuit::has_nul;
use crate::engine::{submittable, NgSpiceModel, ReplyModel, StepModel};
use crate::error::ErrorModel;
use crate::simulation::{all_populated, vectors_of, with_vectors, SimulationModel};
use crate::sink::{appended, stream_of, Stream};
use crate::vector::{InfoModel, RawVector};
use vstd::prelude::*;

verus! {

/// What the engine does in the course of one simulation.
pub ghost struct EngineRun {
    /// The lines it sends while it loads the circuit.
    pub load_output: Seq<Seq<char>>,
    /// The status it returns for the circuit.
    pub load_status: i32,
    /// The lines it sends while it executes the command.
    pub run_output: Seq<Seq<char>>,
    /// The status it returns for the command.
    pub run_status: i32,
    /// The vectors of its result set.
    pub vectors: Seq<RawVector>,
}

impl NgSpiceModel {
    /// The handle once the engine has sent it these lines, one after the other.
    pub open spec fn received_all(self, lines: Seq<Seq<char>>) -> NgSpiceModel
        decreases lines.len(),
    {
        if lines.len() == 0 {
            self
        } else {
            self.received_all(lines.drop_last()).received(lines.last())
        }
    }

    /// A whole simulation, step by step: the handle it leaves behind, and
    /// its result.
    pub open spec fn simulated(self, circuit: Seq<u8>, command: Seq<u8>, run: EngineRun) -> (
        NgSpiceModel,
        Result<SimulationModel, ErrorModel>,
    ) {
        let begun = self.started(circuit, command);
        match NgSpiceModel::first_step(circuit, command) {
            StepModel::Done(result) => (begun, result),
            StepModel::Call(_) => {
                let loading = begun.received_all(run.load_output);
                let load_reply = ReplyModel::Status(run.load_status);
                let loaded = loading.resumed(load_reply);
                match loading.next_step(load_reply) {
                    StepModel::Done(result) => (loaded, result),
                    StepModel::Call(_) => {
                        let running = loaded.received_all(run.run_output);
                        let run_reply = ReplyModel::Status(run.run_status);
                        let executed = running.resumed(run_reply);
                        match running.next_step(run_reply) {
                            StepModel::Done(result) => (executed, result),
                            StepModel::Call(_) => {
                                let vectors = ReplyModel::Vectors(run.vectors);
                                (executed.resumed(vectors), executed.next_step(vectors)->Done_0)
                            },
                        }
                    },
                }
            },
        }
    }
}

/// The output that a stream gathers from a sequence of lines, starting
/// from nothing.
pub open spec fn gathered(lines: Seq<Seq<char>>, stream: Stream) -> Seq<char>
    decreases lines.len(),
{
    if lines.len() == 0 {
        Seq::empty()
    } else if stream_of(lines.last()) == stream {
        appended(gathered(lines.drop_last(), stream), lines.last())
    } else {
        gathered(lines.drop_last(), stream)
    }
}

/// Lines that arrive change the two buffers and nothing else: each buffer
/// grows by what its stream gathers from them.
pub proof fn lemma_received_all(handle: NgSpiceModel, lines: Seq<Seq<char>>)
    ensures
        handle.received_all(lines) == (NgSpiceModel {
            stdout: handle.stdout + gathered(lines, Stream::Stdout),
            stderr: handle.stderr + gathered(lines, Stream::Stderr),
            ..handle
        }),
    decreases lines.len(),
{
    if lines.len() == 0 {
        assert(handle.stdout + Seq::<char>::empty() =~= handle.stdout);
        assert(handle.stderr + Seq::<char>::empty() =~= handle.stderr);
    } else {
        let front = lines.drop_last();
        let line = lines.last();
        lemma_received_all(handle, front);
        let before = handle.received_all(front);
        match stream_of(line) {
            Stream::Stderr => {
                assert(appended(before.stderr, line) =~= handle.stderr + gathered(
                    lines,
                    Stream::Stderr,
                ));
            },
            Stream::Stdout => {
                assert(appended(before.stdout, line) =~= handle.stdout + gathered(
                    lines,
                    Stream::Stdout,
                ));
            },
        }
    }
}

/// A circuit or a command with a null byte in it ends the simulation with
/// `InvalidStringEncoding` before any call on the engine: the result does
/// not depend on what the engine would do, and the handle is untouched.
pub proof fn lemma_nul_is_refused(
    handle: NgSpiceModel,
    circuit: Seq<u8>,
    command: Seq<u8>,
    run: EngineRun,
)
    requires
        has_nul(circuit) || has_nul(command),
    ensures
        NgSpiceModel::first_step(circuit, command) == StepModel::Done(
            Err(ErrorModel::InvalidStringEncoding),
        ),
        handle.started(circuit, command) == handle,
        handle.simulated(circuit, command, run) == (
            handle,
            Err::<SimulationModel, ErrorModel>(ErrorModel::InvalidStringEncoding),
        ),
{
}

/// The result of a whole simulation, by what the engine does: a refused
/// circuit or command gives the error output gathered until then, and an
/// accepted run gives the vectors by name with the output of both streams.
pub proof fn lemma_simulated(
    handle: NgSpiceModel,
    circuit: Seq<u8>,
    command: Seq<u8>,
    run: EngineRun,
)
    requires
        submittable(circuit, command),
    ensures
        handle.simulated(circuit, command, run).1 == (if run.load_status != 0 {
            Err::<SimulationModel, ErrorModel>(
                ErrorModel::InvalidCircuit(gathered(run.load_output, Stream::Stderr)),
            )
        } else if run.run_status != 0 {
            Err(
                ErrorModel::Unknown(
                    gathered(run.load_output, Stream::Stderr) + gathered(
                        run.run_output,
                        Stream::Stderr,
                    ),
                ),
            )
        } else {
            Ok(
                SimulationModel {
                    stdout: gathered(run.load_output, Stream::Stdout) + gathered(
                        run.run_output,
                        Stream::Stdout,
                    ),
                    stderr: gathered(run.load_output, Stream::Stderr) + gathered(
                        run.run_output,
                        Stream::Stderr,
                    ),
                    vectors: vectors_of(run.vectors),
                },
            )
        }),
        handle.simulated(circuit, command, run).0.phase == crate::engine::Phase::Idle,
        run.load_status == 0 && run.run_status == 0 ==> handle.simulated(circuit, command, run).0
            == NgSpiceModel::idle(),
{
    let begun = handle.started(circuit, command);
    lemma_received_all(begun, run.load_output);
    let loading = begun.received_all(run.load_output);
    assert(loading.stdout =~= gathered(run.load_output, Stream::Stdout));
    assert(loading.stderr =~= gathered(run.load_output, Stream::Stderr));
    let loaded = loading.resumed(ReplyModel::Status(run.load_status));
    lemma_received_all(loaded, run.run_output);
}

/// A driver that hands the engine's replies to the handle in order never
/// hands it one that it does not expect, provided that every vector of the
/// result set has a payload.
pub proof fn lemma_replies_are_expected(
    handle: NgSpiceModel,
    circuit: Seq<u8>,
    command: Seq<u8>,
    run: EngineRun,
)
    requires
        submittable(circuit, command),
        all_populated(run.vectors),
    ensures
        ({
            let loading = handle.started(circuit, command).received_all(run.load_output);
            let load_reply = ReplyModel::Status(run.load_status);
            let running = loading.resumed(load_reply).received_all(run.run_output);
            let run_reply = ReplyModel::Status(run.run_status);
            &&& loading.expects(load_reply)
            &&& run.load_status == 0 ==> running.expects(run_reply)
            &&& run.load_status == 0 && run.run_status == 0 ==> running.resumed(run_reply).expects(
                ReplyModel::Vectors(run.vectors),
            )
        }),
{
    let begun = handle.started(circuit, command);
    lemma_received_all(begun, run.load_output);
    let loaded = begun.received_all(run.load_output).resumed(ReplyModel::Status(run.load_status));
    lemma_received_all(loaded, run.run_output);
}

/// Every description that has been taken in is in the map under its name,
/// and the map stays finite.
pub proof fn lemma_with_vectors(vectors: Map<Seq<char>, InfoModel>, raws: Seq<RawVector>)
    requires
        vectors.dom().finite(),
    ensures
        with_vectors(vectors, raws).dom().finite(),
        forall|i: int|
            0 <= i < raws.len() ==> with_vectors(vectors, raws).contains_key(
                (#[trigger] raws[i]).name@,
            ),
        forall|name: Seq<char>|
            vectors.contains_key(name) ==> #[trigger] with_vectors(vectors, raws).contains_key(
                name,
            ),
    decreases raws.len(),
{
    if raws.len() > 0 {
        let front = raws.drop_last();
        lemma_with_vectors(vectors, front);
        assert forall|i: int| 0 <= i < raws.len() implies with_vectors(vectors, raws).contains_key(
            (#[trigger] raws[i]).name@,
        ) by {
            if i < raws.len() - 1 {
                assert(front[i] == raws[i]);
            }
        }
    }
}

/// Where the engine accepts the circuit and the command and has result
/// vectors, the simulation gives a record that holds each of them under its
/// name; its vectors are therefore not empty.
pub proof fn lemma_accepted_run_has_vectors(
    handle: NgSpiceModel,
    circuit: Seq<u8>,
    command: Seq<u8>,
    run: EngineRun,
)
    requires
        submittable(circuit, command),
        run.load_status == 0,
        run.run_status == 0,
        run.vectors.len() > 0,
    ensures
        handle.simulated(circuit, command, run).1 is Ok,
        ({
            let vectors = handle.simulated(circuit, command, run).1->Ok_0.vectors;
            &&& vectors.dom().finite()
            &&& vectors.len() > 0
            &&& forall|i: int|
                0 <= i < run.vectors.len() ==> vectors.contains_key(
                    (#[trigger] run.vectors[i]).name@,
                )
        }),
{
    lemma_simulated(handle, circuit, command, run);
    lemma_with_vectors(Map::empty(), run.vectors);
    let vectors = vectors_of(run.vectors);
    assert(vectors.contains_key(run.vectors[0].name@));
    if vectors.len() == 0 {
        assert(vectors.dom() =~= Set::empty());
    }
}

/// The result of a simulation does not depend on the handle it starts from.
pub proof fn lemma_result_ignores_handle(
    one: NgSpiceModel,
    other: NgSpiceModel,
    circuit: Seq<u8>,
    command: Seq<u8>,
    run: EngineRun,
)
    ensures
        one.simulated(circuit, command, run).1 == other.simulated(circuit, command, run).1,
{
    if submittable(circuit, command) {
        lemma_simulated(one, circuit, command, run);
        lemma_simulated(other, circuit, command, run);
    }
}

/// Buffer isolation: of two simulations in a row, the second gives what it
/// would give on a handle that has never gathered anything. No text of the
/// first is in its output.
pub proof fn lemma_buffers_are_isolated(
    handle: NgSpiceModel,
    first_circuit: Seq<u8>,
    first_command: Seq<u8>,
    first_run: EngineRun,
    circuit: Seq<u8>,
    command: Seq<u8>,
    run: EngineRun,
)
    ensures
        handle.simulated(first_circuit, first_command, first_run).0.simulated(
            circuit,
            command,
            run,
        ).1 == NgSpiceModel::idle().simulated(circuit, command, run).1,
{
    lemma_result_ignores_handle(
        handle.simulated(first_circuit, first_command, first_run).0,
        NgSpiceModel::idle(),
        circuit,
        command,
        run,
    );
}

/// Idempotence: a simulation that is repeated at once, with the same
/// circuit and command and the engine doing the same, gives the same
/// result: the same vectors under the same names, and the same output.
pub proof fn lemma_simulation_is_repeatable(
    handle: NgSpiceModel,
    circuit: Seq<u8>,
    command: Seq<u8>,
    run: EngineRun,
)
    ensures
        handle.simulated(circuit, command, run).0.simulated(circuit, command, run).1
            == handle.simulated(circuit, command, run).1,
{
    lemma_result_ignores_handle(
        handle.simulated(circuit, command, run).0,
        handle,
        circuit,
        command,
        run,
    );
}

} // verus!
