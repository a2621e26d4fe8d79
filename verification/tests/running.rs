use lua_bench::decode::{BenchmarkResult, Cause, DecodeError, Field, Kind, Shape, Target};
use lua_bench::number::Number;
use lua_bench::runner::{run_script, run_timed, Report, RunError};
use lua_bench::timing::{Elapsed, Stats, StatsError};
use mlua::Lua;

fn decode_error(r: Result<BenchmarkResult, RunError>) -> DecodeError {
    match r {
        Err(RunError::Decode(e)) => e,
        other => panic!("unexpected outcome: {:?}", other),
    }
}

#[test]
fn run_decodes_what_the_script_returns() {
    let lua = Lua::new();
    let r = run_script(&lua, "return { result = 42.5, operations = 1000, max_value = 99.9 }");
    let record = r.unwrap();
    assert_eq!(f64::from_bits(record.result.to_bits()), 42.5);
    assert_eq!(record.operations, 1000);
    assert_eq!(f64::from_bits(record.max_value.to_bits()), 99.9);
}

#[test]
fn run_counts_operations_of_every_iteration() {
    let lua = Lua::new();
    let script = r#"
        local operations = 0
        for i = 1, 12345 do
            operations = operations + 3
        end
        return { result = 0.5, operations = operations, max_value = 1.5 }
    "#;
    assert_eq!(run_script(&lua, script).unwrap().operations, 12345 * 3);
}

#[test]
fn script_errors_come_back_unchanged() {
    let lua = Lua::new();
    match run_script(&lua, "return {") {
        Err(RunError::Script(mlua::Error::SyntaxError { .. })) => {}
        other => panic!("unexpected outcome: {:?}", other),
    }
    match run_script(&lua, "error('stop here')") {
        Err(RunError::Script(mlua::Error::RuntimeError(text))) => {
            assert!(text.contains("stop here"));
        }
        other => panic!("unexpected outcome: {:?}", other),
    }
    match run_timed(&lua, "local x = nil; return x.field") {
        Err(RunError::Script(mlua::Error::RuntimeError(_))) => {}
        other => panic!("unexpected outcome: {:?}", other),
    }
}

#[test]
fn decode_errors_end_the_run() {
    let lua = Lua::new();
    assert_eq!(
        decode_error(run_script(&lua, "return 7.5")),
        DecodeError::ShapeMismatch { actual: Kind::Number, expected: Shape::Full }
    );
    assert_eq!(
        decode_error(run_script(&lua, "return { result = 1.0, max_value = 2.0 }")),
        DecodeError::FieldAccess { field: Field::Operations, cause: Cause::Absent }
    );
    assert_eq!(
        decode_error(run_script(&lua, "return { result = 1.0, operations = 0.5, max_value = 2.0 }")),
        DecodeError::TypeCoercion { field: Field::Operations, target: Target::Unsigned }
    );
    match run_timed(&lua, "return { result = 1.0, operations = -1, max_value = 2.0 }") {
        Err(RunError::Decode(DecodeError::TypeCoercion { field, target })) => {
            assert_eq!(field, Field::Operations);
            assert_eq!(target, Target::Unsigned);
        }
        other => panic!("unexpected outcome: {:?}", other),
    }
}

#[test]
fn timed_run_reports_result_and_time() {
    let lua = Lua::new();
    let script = r#"
        local sum = 0.0
        local operations = 0
        for i = 1, 200000 do
            sum = sum + i
            operations = operations + 2
        end
        return { result = sum, operations = operations, max_value = 200000.0 }
    "#;
    let report = run_timed(&lua, script).unwrap();
    assert_eq!(report.result.operations, 400000);
    assert_eq!(f64::from_bits(report.result.result.to_bits()), 20000100000.0);
    assert!(report.elapsed.nanos < 20_000_000_000);
    if report.elapsed.nanos > 0 {
        let stats = report.stats(200000).unwrap();
        assert_eq!(stats.time_per_iteration.nanos, report.elapsed.nanos / 200000);
        assert_eq!(stats.time_per_operation.nanos, report.elapsed.nanos / 400000);
    }
}

#[test]
fn report_stats_guard_zero_operations() {
    let record = BenchmarkResult {
        result: Number::from_bits(0),
        operations: 0,
        max_value: Number::from_bits(0),
    };
    let report = Report { result: record, elapsed: Elapsed { nanos: 1_000 } };
    assert_eq!(report.stats(10), Err(StatsError::DivisionByZero));
    let record = BenchmarkResult { operations: 30, ..record };
    let report = Report { result: record, elapsed: Elapsed { nanos: 3_000 } };
    assert_eq!(
        report.stats(10),
        Ok(Stats {
            time_per_iteration: Elapsed { nanos: 300 },
            time_per_operation: Elapsed { nanos: 100 },
            iterations_per_second: 3_333_333,
            operations_per_second: 10_000_000,
        })
    );
    assert_eq!(report.stats(0), Err(StatsError::DivisionByZero));
}

#[test]
fn distance_callback_is_symmetric_on_examples() {
    let lua = Lua::new();
    let distance = lua
        .create_function(|_, (x1, y1, x2, y2): (f64, f64, f64, f64)| {
            let dx = x2 - x1;
            let dy = y2 - y1;
            Ok((dx * dx + dy * dy).sqrt())
        })
        .unwrap();
    lua.globals().set("distance", distance).unwrap();
    let script = r#"
        local there = distance(1, 2, 4, 6)
        local back = distance(4, 6, 1, 2)
        local same = 0
        if there == back then same = 1 end
        return { result = there, operations = same, max_value = back }
    "#;
    let record = run_script(&lua, script).unwrap();
    assert_eq!(record.operations, 1);
    assert_eq!(f64::from_bits(record.result.to_bits()), 5.0);
    assert_eq!(f64::from_bits(record.max_value.to_bits()), 5.0);
}
