use ngspice::{DataType, Error, NgSpice, Phase, RawVector, Reply, Request, Simulation, Step};
use ngspice::VectorValues;

const CIRCUIT: &str = ".title Thing
V2 refv GND dc(3.3)
V1 vin GND sin(0 17.4 60)
R3 meas GND 10k
R1 vin meas 60.4k
R4 refv meas 10k
.end";

const DIVIDER: &str = ".title Divider
V1 in 0 dc 10
R1 in mid 1k
R2 mid 0 1k
.end";

/// An engine that plays back what it was told to do, and counts its calls.
struct Script {
    load_output: Vec<&'static str>,
    load_status: i32,
    run_output: Vec<&'static str>,
    run_status: i32,
    vectors: Vec<RawVector>,
    calls: usize,
    circuit: Vec<Vec<u8>>,
    command: Vec<u8>,
}

fn script(
    load_output: Vec<&'static str>,
    load_status: i32,
    run_output: Vec<&'static str>,
    run_status: i32,
    vectors: Vec<RawVector>,
) -> Script {
    Script {
        load_output,
        load_status,
        run_output,
        run_status,
        vectors,
        calls: 0,
        circuit: Vec::new(),
        command: Vec::new(),
    }
}

fn reals(name: &str, type_tag: i32, samples: &[f64]) -> RawVector {
    RawVector {
        name: String::from(name),
        type_tag,
        real: Some(samples.iter().map(|x| x.to_bits()).collect()),
        complex: None,
    }
}

fn pairs(name: &str, type_tag: i32, samples: &[(f64, f64)]) -> RawVector {
    RawVector {
        name: String::from(name),
        type_tag,
        real: None,
        complex: Some(samples.iter().map(|x| (x.0.to_bits(), x.1.to_bits())).collect()),
    }
}

fn terminated(text: &str) -> Vec<u8> {
    let mut bytes = text.as_bytes().to_vec();
    bytes.push(0);
    bytes
}

/// Drives one simulation to its end against the script.
fn run(
    handle: &mut NgSpice,
    circuit: &str,
    command: &str,
    engine: &mut Script,
) -> Result<Simulation, Error> {
    let mut step = handle.simulate(circuit, command);
    loop {
        let reply = match step {
            Step::Done(result) => return result,
            Step::Call(Request::LoadCircuit(lines)) => {
                engine.calls += 1;
                engine.circuit = lines;
                for line in engine.load_output.iter() {
                    handle.send_char(line);
                }
                Reply::Status(engine.load_status)
            }
            Step::Call(Request::RunCommand(line)) => {
                engine.calls += 1;
                engine.command = line;
                for line in engine.run_output.iter() {
                    handle.send_char(line);
                }
                Reply::Status(engine.run_status)
            }
            Step::Call(Request::ReadVectors) => {
                engine.calls += 1;
                Reply::Vectors(std::mem::take(&mut engine.vectors))
            }
        };
        assert!(handle.accepts(&reply));
        step = handle.resume(reply);
    }
}

fn transient() -> Script {
    script(
        vec!["stdout Circuit: thing", "stderr Note: No compatibility mode selected!"],
        0,
        vec![
            "stdout Doing analysis at TEMP = 27.000000 and TNOM = 27.000000",
            "stderr Using SPARSE 1.3 as Direct Linear Solver",
            "No. of Data Rows : 1708",
        ],
        0,
        vec![
            reals("time", 1, &[0.0, 1.0e-4]),
            reals("meas", 3, &[1.5, 1.6]),
            reals("v1#branch", 4, &[0.0, -1.0e-5]),
        ],
    )
}

#[test]
fn lib_it_works() {
    let cmd = "tran 100u 0.17s";
    let mut handle = NgSpice::new();
    let mut engine = transient();
    let sim = run(&mut handle, CIRCUIT, cmd, &mut engine).unwrap();
    assert!(sim.stdout.len() > 0);
    assert!(sim.stderr.len() > 0);
    assert!(sim.vectors.len() > 0);
}

#[test]
fn engine_gets_the_circuit_by_lines_and_the_command() {
    let cmd = "tran 100u 0.17s";
    let mut handle = NgSpice::new();
    let mut engine = transient();
    run(&mut handle, CIRCUIT, cmd, &mut engine).unwrap();
    let expected: Vec<Vec<u8>> = CIRCUIT.lines().map(terminated).collect();
    assert_eq!(engine.circuit, expected);
    assert_eq!(engine.circuit.len(), 7);
    assert_eq!(engine.circuit[6], b".end\0".to_vec());
    assert_eq!(engine.command, b"tran 100u 0.17s\0".to_vec());
    assert_eq!(engine.calls, 3);
}

#[test]
fn record_holds_the_output_of_each_stream() {
    let mut handle = NgSpice::new();
    let mut engine = transient();
    let sim = run(&mut handle, CIRCUIT, "tran 100u 0.17s", &mut engine).unwrap();
    assert_eq!(
        sim.stdout,
        "Circuit: thing\nDoing analysis at TEMP = 27.000000 and TNOM = 27.000000\nNo. of Data Rows : 1708\n"
    );
    assert_eq!(
        sim.stderr,
        "Note: No compatibility mode selected!\nUsing SPARSE 1.3 as Direct Linear Solver\n"
    );
    assert_eq!(handle.stdout(), "");
    assert_eq!(handle.stderr(), "");
    assert_eq!(handle.phase(), Phase::Idle);
}

#[test]
fn nul_in_circuit_is_refused_without_the_engine() {
    let mut handle = NgSpice::new();
    let mut engine = transient();
    let result = run(&mut handle, "R1 a b 1k\0\n.end", "op", &mut engine);
    assert_eq!(result.unwrap_err(), Error::InvalidStringEncoding);
    assert_eq!(engine.calls, 0);
    assert_eq!(handle.phase(), Phase::Idle);
}

#[test]
fn nul_in_command_is_refused_without_the_engine() {
    let mut handle = NgSpice::new();
    let mut engine = transient();
    let result = run(&mut handle, CIRCUIT, "tran 100u\0 0.17s", &mut engine);
    assert_eq!(result.unwrap_err(), Error::InvalidStringEncoding);
    assert_eq!(engine.calls, 0);
}

#[test]
fn refused_input_leaves_the_handle_untouched() {
    let mut handle = NgSpice::new();
    handle.send_char("stdout kept");
    handle.send_char("stderr kept too");
    let step = handle.simulate("\0", "op");
    assert!(matches!(step, Step::Done(Err(Error::InvalidStringEncoding))));
    assert_eq!(handle.stdout(), "kept\n");
    assert_eq!(handle.stderr(), "kept too\n");
    assert_eq!(handle.phase(), Phase::Idle);
}

#[test]
fn accepted_run_with_vectors_gives_them_all() {
    let mut handle = NgSpice::new();
    let mut engine = transient();
    let sim = run(&mut handle, CIRCUIT, "tran 100u 0.17s", &mut engine).unwrap();
    assert_eq!(sim.vectors.len(), 3);
    assert!(!sim.vectors.is_empty());
    assert!(sim.vectors.contains_key("time"));
    assert!(sim.vectors.contains_key("meas"));
    assert!(sim.vectors.contains_key("v1#branch"));
    assert_eq!(sim.vectors.get("time").unwrap().datatype, DataType::Time);
    assert_eq!(sim.vectors.get("v1#branch").unwrap().datatype, DataType::Current);
}

#[test]
fn second_record_holds_no_text_of_the_first() {
    let mut handle = NgSpice::new();
    let mut first = script(
        vec!["stdout first circuit", "stderr first warning"],
        0,
        vec!["first analysis"],
        0,
        vec![reals("a", 3, &[1.0])],
    );
    let mut second = script(
        vec!["stdout second circuit"],
        0,
        vec!["stderr second warning"],
        0,
        vec![reals("b", 3, &[2.0])],
    );
    let one = run(&mut handle, CIRCUIT, "op", &mut first).unwrap();
    let two = run(&mut handle, DIVIDER, "tran 1u 1m", &mut second).unwrap();
    assert_eq!(one.stdout, "first circuit\nfirst analysis\n");
    assert_eq!(one.stderr, "first warning\n");
    assert_eq!(two.stdout, "second circuit\n");
    assert_eq!(two.stderr, "second warning\n");
    assert!(!two.stdout.contains("first"));
    assert!(!two.stderr.contains("first"));
    assert!(!two.vectors.contains_key("a"));
}

#[test]
fn output_of_a_failed_run_does_not_reach_the_next_record() {
    let mut handle = NgSpice::new();
    let mut failing = script(vec!["stderr Error: no such thing"], 1, vec![], 0, vec![]);
    let error = run(&mut handle, "nonsense", "op", &mut failing).unwrap_err();
    assert_eq!(error, Error::InvalidCircuit(String::from("Error: no such thing\n")));
    assert_eq!(handle.stderr(), "Error: no such thing\n");
    let mut engine = script(vec![], 0, vec!["stdout fine"], 0, vec![reals("n", 3, &[0.5])]);
    let sim = run(&mut handle, DIVIDER, "op", &mut engine).unwrap();
    assert_eq!(sim.stdout, "fine\n");
    assert_eq!(sim.stderr, "");
}

#[test]
fn repeated_simulation_gives_the_same_result() {
    let mut handle = NgSpice::new();
    let mut first = transient();
    let mut again = transient();
    let one = run(&mut handle, CIRCUIT, "tran 100u 0.17s", &mut first).unwrap();
    let two = run(&mut handle, CIRCUIT, "tran 100u 0.17s", &mut again).unwrap();
    assert_eq!(one.stdout, two.stdout);
    assert_eq!(one.stderr, two.stderr);
    let mut names_one = one.vectors.names();
    let mut names_two = two.vectors.names();
    names_one.sort();
    names_two.sort();
    assert_eq!(names_one, names_two);
    for name in names_one.iter() {
        let a = one.vectors.get(name).unwrap();
        let b = two.vectors.get(name).unwrap();
        assert_eq!(a.datatype, b.datatype);
        assert_eq!(a.values.len(), b.values.len());
        match (&a.values, &b.values) {
            (VectorValues::Real(x), VectorValues::Real(y)) => assert_eq!(x, y),
            (VectorValues::Complex(x), VectorValues::Complex(y)) => assert_eq!(x, y),
            _ => panic!("kinds differ"),
        }
    }
}

#[test]
fn operating_point_of_a_divider() {
    let mut handle = NgSpice::new();
    let mut engine = script(
        vec!["stdout Circuit: divider"],
        0,
        vec!["stdout Doing analysis at TEMP = 27.000000 and TNOM = 27.000000"],
        0,
        vec![reals("v1#branch", 4, &[-0.005]), reals("mid", 3, &[5.0]), reals("in", 3, &[10.0])],
    );
    let sim = run(&mut handle, DIVIDER, "op", &mut engine).unwrap();
    assert_eq!(engine.command, b"op\0".to_vec());
    assert!(sim.stdout.len() > 0);
    for (node, volts) in [("in", 10.0f64), ("mid", 5.0f64)] {
        let info = sim.vectors.get(node).unwrap();
        assert_eq!(info.datatype, DataType::Voltage);
        match &info.values {
            VectorValues::Real(samples) => {
                assert_eq!(samples.len(), 1);
                assert_eq!(f64::from_bits(samples[0]), volts);
            }
            VectorValues::Complex(_) => panic!("expected real samples"),
        }
    }
}

#[test]
fn circuit_without_end_is_invalid() {
    let mut handle = NgSpice::new();
    let mut engine = script(
        vec![
            "stdout Circuit: divider",
            "stderr Error: .end card missing",
            "stderr Error: circuit not parsed.",
        ],
        1,
        vec![],
        0,
        vec![],
    );
    let circuit = ".title Divider\nV1 in 0 dc 10\nR1 in mid 1k\nR2 mid 0 1k";
    let error = run(&mut handle, circuit, "op", &mut engine).unwrap_err();
    match &error {
        Error::InvalidCircuit(logs) => {
            assert!(logs.len() > 0);
            assert!(logs.contains("circuit not parsed"));
            assert_eq!(logs, "Error: .end card missing\nError: circuit not parsed.\n");
        }
        other => panic!("unexpected error: {:?}", other),
    }
    assert_eq!(engine.calls, 1);
    assert_eq!(handle.phase(), Phase::Idle);
}

#[test]
fn refused_command_is_unknown_error() {
    let mut handle = NgSpice::new();
    let mut engine = script(
        vec!["stderr Note: No compatibility mode selected!"],
        0,
        vec!["stderr Error: unknown command"],
        1,
        vec![reals("never", 3, &[0.0])],
    );
    let error = run(&mut handle, DIVIDER, "frobnicate", &mut engine).unwrap_err();
    assert_eq!(
        error,
        Error::Unknown(String::from(
            "Note: No compatibility mode selected!\nError: unknown command\n"
        ))
    );
    assert_eq!(engine.calls, 2);
    assert_eq!(handle.phase(), Phase::Idle);
}

#[test]
fn any_status_but_zero_is_a_refusal() {
    for status in [1i32, -1, 2, i32::MIN, i32::MAX] {
        let mut handle = NgSpice::new();
        let mut engine = script(vec![], status, vec![], 0, vec![]);
        let error = run(&mut handle, DIVIDER, "op", &mut engine).unwrap_err();
        assert_eq!(error, Error::InvalidCircuit(String::new()));
        assert!(handle.load_circuit(0).is_ok());
        assert!(handle.command(0).is_ok());
        assert_eq!(handle.load_circuit(status).unwrap_err(), Error::InvalidCircuit(String::new()));
        assert_eq!(handle.command(status).unwrap_err(), Error::Unknown(String::new()));
    }
}

#[test]
fn phases_follow_the_steps() {
    let mut handle = NgSpice::new();
    assert_eq!(handle.phase(), Phase::Idle);
    assert!(matches!(handle.simulate(DIVIDER, "op"), Step::Call(Request::LoadCircuit(_))));
    assert_eq!(handle.phase(), Phase::Loading);
    assert!(matches!(handle.resume(Reply::Status(0)), Step::Call(Request::RunCommand(_))));
    assert_eq!(handle.phase(), Phase::Running);
    assert!(matches!(handle.resume(Reply::Status(0)), Step::Call(Request::ReadVectors)));
    assert_eq!(handle.phase(), Phase::Collecting);
    assert!(matches!(handle.resume(Reply::Vectors(Vec::new())), Step::Done(Ok(_))));
    assert_eq!(handle.phase(), Phase::Idle);
}

#[test]
fn replies_out_of_turn_are_not_accepted() {
    let mut handle = NgSpice::new();
    assert!(!handle.accepts(&Reply::Status(0)));
    assert!(!handle.accepts(&Reply::Vectors(Vec::new())));
    handle.simulate(DIVIDER, "op");
    assert!(handle.accepts(&Reply::Status(0)));
    assert!(handle.accepts(&Reply::Status(7)));
    assert!(!handle.accepts(&Reply::Vectors(Vec::new())));
    handle.resume(Reply::Status(0));
    assert!(handle.accepts(&Reply::Status(0)));
    assert!(!handle.accepts(&Reply::Vectors(Vec::new())));
    handle.resume(Reply::Status(0));
    assert!(!handle.accepts(&Reply::Status(0)));
    assert!(handle.accepts(&Reply::Vectors(Vec::new())));
    assert!(handle.accepts(&Reply::Vectors(vec![reals("a", 3, &[1.0])])));
}

#[test]
fn vector_without_payload_is_not_accepted() {
    let mut handle = NgSpice::new();
    handle.simulate(DIVIDER, "op");
    handle.resume(Reply::Status(0));
    handle.resume(Reply::Status(0));
    let empty = RawVector { name: String::from("ghost"), type_tag: 3, real: None, complex: None };
    assert!(!empty.is_populated());
    assert!(!handle.accepts(&Reply::Vectors(vec![reals("a", 3, &[1.0]), empty])));
}

#[test]
fn new_simulation_drops_earlier_output() {
    let mut handle = NgSpice::new();
    handle.send_char("left over");
    handle.send_char("stderr left over too");
    assert_eq!(handle.stdout(), "left over\n");
    handle.simulate(DIVIDER, "op");
    assert_eq!(handle.stdout(), "");
    assert_eq!(handle.stderr(), "");
}

#[test]
fn complex_vectors_and_unknown_tags() {
    let mut handle = NgSpice::new();
    let mut engine = script(
        vec![],
        0,
        vec![],
        0,
        vec![
            reals("frequency", 2, &[1.0, 10.0]),
            pairs("out", 3, &[(1.0, -0.5), (0.25, 0.125)]),
            reals("temp-sweep", 6, &[27.0]),
            reals("odd", -3, &[0.0]),
        ],
    );
    let sim = run(&mut handle, DIVIDER, "ac dec 1 1 10", &mut engine).unwrap();
    assert_eq!(sim.vectors.len(), 4);
    assert_eq!(sim.vectors.get("frequency").unwrap().datatype, DataType::Frequency);
    assert_eq!(sim.vectors.get("temp-sweep").unwrap().datatype, DataType::Unknown);
    assert_eq!(sim.vectors.get("odd").unwrap().datatype, DataType::Unknown);
    let out = sim.vectors.get("out").unwrap();
    assert_eq!(out.datatype, DataType::Voltage);
    match &out.values {
        VectorValues::Complex(samples) => {
            assert_eq!(samples.len(), 2);
            assert_eq!(f64::from_bits(samples[0].0), 1.0);
            assert_eq!(f64::from_bits(samples[0].1), -0.5);
            assert_eq!(f64::from_bits(samples[1].1), 0.125);
        }
        VectorValues::Real(_) => panic!("expected complex samples"),
    }
}

#[test]
fn later_vector_of_a_name_replaces_the_earlier() {
    let mut handle = NgSpice::new();
    let mut engine = script(
        vec![],
        0,
        vec![],
        0,
        vec![reals("n", 3, &[1.0]), reals("m", 3, &[2.0]), reals("n", 4, &[3.0, 4.0])],
    );
    let sim = run(&mut handle, DIVIDER, "op", &mut engine).unwrap();
    assert_eq!(sim.vectors.len(), 2);
    let n = sim.vectors.get("n").unwrap();
    assert_eq!(n.datatype, DataType::Current);
    assert_eq!(n.values.len(), 2);
}

#[test]
fn accepted_run_without_vectors_gives_an_empty_table() {
    let mut handle = NgSpice::new();
    let mut engine = script(vec![], 0, vec!["stdout nothing to show"], 0, vec![]);
    let sim = run(&mut handle, DIVIDER, "echo", &mut engine).unwrap();
    assert!(sim.vectors.is_empty());
    assert_eq!(sim.vectors.len(), 0);
    assert_eq!(sim.stdout, "nothing to show\n");
}
