//! The results of one simulation.

use crate::table::VectorTable;
use crate::vector::{InfoModel, RawVector};
use vstd::prelude::*;

verus! {

/// The results of a single ngSPICE simulation (an ngSPICE plot).
#[derive(Debug)]
pub struct Simulation {
    /// ngSPICE log output to stdout.
    pub stdout: String,
    /// ngSPICE log output to stderr.
    pub stderr: String,
    /// All simulation output vectors by name.
    pub vectors: VectorTable,
}

/// The results of a simulation as a mathematical value.
pub ghost struct SimulationModel {
    pub stdout: Seq<char>,
    pub stderr: Seq<char>,
    pub vectors: Map<Seq<char>, InfoModel>,
}

impl View for Simulation {
    type V = SimulationModel;

    open spec fn view(&self) -> SimulationModel {
        SimulationModel { stdout: self.stdout@, stderr: self.stderr@, vectors: self.vectors@ }
    }
}

/// The vectors by name once a list of the engine's descriptions has been
/// taken in, one after the other. Where two descriptions carry one name, the
/// later one counts.
pub open spec fn with_vectors(
    vectors: Map<Seq<char>, InfoModel>,
    raws: Seq<RawVector>,
) -> Map<Seq<char>, InfoModel>
    decreases raws.len(),
{
    if raws.len() == 0 {
        vectors
    } else {
        with_vectors(vectors, raws.drop_last()).insert(raws.last().name@, raws.last().info())
    }
}

/// The vectors by name that a list of the engine's descriptions stands for.
pub open spec fn vectors_of(raws: Seq<RawVector>) -> Map<Seq<char>, InfoModel> {
    with_vectors(Map::empty(), raws)
}

/// Every description in the list has a payload.
pub open spec fn all_populated(raws: Seq<RawVector>) -> bool {
    forall|i: int| 0 <= i < raws.len() ==> (#[trigger] raws[i]).has_payload()
}

/// Tells whether every description in the list has a payload.
pub fn every_populated(raws: &Vec<RawVector>) -> (populated: bool)
    ensures
        populated == all_populated(raws@),
{
    let mut i: usize = 0;
    while i < raws.len()
        invariant
            i <= raws@.len(),
            forall|j: int| 0 <= j < i ==> (#[trigger] raws@[j]).has_payload(),
        decreases raws@.len() - i,
    {
        if !raws[i].is_populated() {
            return false;
        }
        i += 1;
    }
    true
}

impl Default for Simulation {
    fn default() -> (sim: Simulation)
        ensures
            sim@ == (SimulationModel {
                stdout: Seq::empty(),
                stderr: Seq::empty(),
                vectors: Map::empty(),
            }),
    {
        Simulation { stdout: String::new(), stderr: String::new(), vectors: VectorTable::new() }
    }
}

impl Simulation {
    /// Takes in one vector as the engine describes it, under its name.
    pub fn insert_vecinfo(&mut self, raw: RawVector)
        requires
            raw.has_payload(),
        ensures
            final(self)@ == (SimulationModel {
                vectors: old(self)@.vectors.insert(raw.name@, raw.info()),
                ..old(self)@
            }),
    {
        let (name, info) = raw.into_info();
        self.vectors.insert(name, info);
    }

    /// Takes in all vectors of a result set, in the engine's order.
    pub fn insert_all(&mut self, raws: Vec<RawVector>)
        requires
            all_populated(raws@),
        ensures
            final(self)@ == (SimulationModel {
                vectors: with_vectors(old(self)@.vectors, raws@),
                ..old(self)@
            }),
    {
        let ghost all = raws@;
        for raw in it: raws
            invariant
                it.seq() == all,
                all_populated(all),
                self@ == (SimulationModel {
                    vectors: with_vectors(old(self)@.vectors, all.take(it.index() as int)),
                    ..old(self)@
                }),
        {
            assert(all.take(it.index() + 1).drop_last() == all.take(it.index() as int));
            self.insert_vecinfo(raw);
        }
        assert(all.take(all.len() as int) == all);
    }
}

} // verus!
