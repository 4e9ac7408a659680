use modelator::input::{Direct, Input, Schema};
use modelator::predicates::{
    Check, DirectPredicate, Predicate, SchemaPredicate, SystemCheck, SystemDirectPredicate,
    SystemPredicate, SystemSchemaPredicate,
};
use modelator::tester::{capture_test, Abort, SimpleTester, SystemTester, TestResult};
use modelator::tlc::{workers, Workers};

#[derive(Clone)]
pub struct MyTest {
    pub name: String,
}

#[derive(Clone)]
pub struct MyTest2 {
    pub id: u64,
}

#[derive(Clone)]
pub enum NativeVal {
    T1(MyTest),
    T2(MyTest2),
}

impl Schema for MyTest {
    type Native = NativeVal;

    fn of_native(n: &NativeVal) -> Option<MyTest> {
        match n {
            NativeVal::T1(t) => Some(t.clone()),
            _ => None,
        }
    }

    fn of_structured(v: &serde_json::Value) -> Option<MyTest> {
        match v.get("name") {
            Some(name) => name.as_str().map(|s| MyTest { name: s.to_string() }),
            None => None,
        }
    }
}

impl Schema for MyTest2 {
    type Native = NativeVal;

    fn of_native(n: &NativeVal) -> Option<MyTest2> {
        match n {
            NativeVal::T2(t) => Some(t.clone()),
            _ => None,
        }
    }

    fn of_structured(v: &serde_json::Value) -> Option<MyTest2> {
        v.get("id").and_then(|x| x.as_u64()).map(|id| MyTest2 { id })
    }
}

impl Direct for MyTest {
    type Native = NativeVal;

    fn of_native(n: &NativeVal) -> Option<MyTest> {
        match n {
            NativeVal::T1(t) => Some(t.clone()),
            _ => None,
        }
    }
}

impl Direct for MyTest2 {
    type Native = NativeVal;

    fn of_native(n: &NativeVal) -> Option<MyTest2> {
        match n {
            NativeVal::T2(t) => Some(t.clone()),
            _ => None,
        }
    }
}

struct FailsCheck;

impl Check for FailsCheck {
    type Case = MyTest2;

    fn run(&self, _case: MyTest2) -> Result<String, Abort> {
        Err(Abort {
            message: String::from("assertion failed"),
            location: String::from("tests/tester.rs"),
        })
    }
}

struct SucceedsIfMyTestCheck;

impl Check for SucceedsIfMyTestCheck {
    type Case = MyTest;

    fn run(&self, case: MyTest) -> Result<String, Abort> {
        if case.name == "my_test" {
            Ok(String::from("null"))
        } else {
            Err(Abort {
                message: format!("got {}", case.name),
                location: String::from("tests/tester.rs"),
            })
        }
    }
}

enum Pred {
    Fails,
    SucceedsIfMyTest,
}

impl Predicate for Pred {
    type Native = NativeVal;

    fn check(&self, input: &Input<NativeVal>) -> TestResult {
        match self {
            Pred::Fails => SchemaPredicate { logic: FailsCheck }.check(input),
            Pred::SucceedsIfMyTest => {
                SchemaPredicate { logic: SucceedsIfMyTestCheck }.check(input)
            }
        }
    }
}

pub struct MyState {
    pub state: String,
}

struct Test1Check;

impl SystemCheck for Test1Check {
    type State = MyState;
    type Case = MyTest;

    fn run(&self, _state: &mut MyState, _case: MyTest) -> Result<String, Abort> {
        Ok(String::from("null"))
    }
}

struct Test2Check;

impl SystemCheck for Test2Check {
    type State = MyState;
    type Case = MyTest2;

    fn run(&self, _state: &mut MyState, _case: MyTest2) -> Result<String, Abort> {
        Ok(String::from("null"))
    }
}

enum SysPred {
    Test1,
    Test2,
}

impl SystemPredicate for SysPred {
    type State = MyState;
    type Native = NativeVal;

    fn check(&self, state: &mut MyState, input: &Input<NativeVal>) -> TestResult {
        match self {
            SysPred::Test1 => SystemSchemaPredicate { logic: Test1Check }.check(state, input),
            SysPred::Test2 => SystemSchemaPredicate { logic: Test2Check }.check(state, input),
        }
    }
}

fn chain() -> SimpleTester<Pred> {
    let mut tester = SimpleTester::new();
    tester.add(Pred::Fails);
    tester.add(Pred::SucceedsIfMyTest);
    tester
}

#[test]
fn test() {
    let mut tester = SimpleTester::new();
    tester.add(Pred::Fails);
    tester.add(Pred::SucceedsIfMyTest);

    let res = tester.test(&Input::Text("".to_string()));
    assert!(res == TestResult::Unhandled);

    let data = String::from("{\"name\": \"test\"}");
    let res = tester.test(&Input::Text(data));
    assert!(
        matches!(res, TestResult::Failure { message, location: _ } if message == "got test")
    );

    let data = MyTest {
        name: "my_test".to_string(),
    };
    let res = tester.test(&Input::Native(NativeVal::T1(data)));
    assert!(matches!(res, TestResult::Success(_)));

    let data = String::from("{\"name\": \"my_test\"}");
    let res = tester.test(&Input::Text(data.clone()));
    println!("{:?}", res);
    assert!(matches!(res, TestResult::Success(_)));

    let data: serde_json::Value = serde_json::from_str(&data).unwrap();
    let res = tester.test(&Input::Structured(data));
    assert!(matches!(res, TestResult::Success(_)));

    let mut tester = SystemTester::<SysPred>::new();
    tester.add(SysPred::Test1);
    tester.add(SysPred::Test2);
}

#[test]
fn conversion_equivalence() {
    let tester = chain();
    let native = tester.test(&Input::Native(NativeVal::T1(MyTest {
        name: String::from("my_test"),
    })));
    let text = tester.test(&Input::Text(String::from("{\"name\": \"my_test\"}")));
    let tree: serde_json::Value = serde_json::from_str("{\"name\": \"my_test\"}").unwrap();
    let structured = tester.test(&Input::Structured(tree));
    assert!(matches!(native, TestResult::Success(_)));
    assert!(native == text);
    assert!(text == structured);
}

#[test]
fn wrapper_transparency() {
    let tester = chain();
    let plain = tester.test(&Input::Text(String::from("{\"name\": \"test\"}")));
    let once = tester.test(&Input::Wrapped(Box::new(Input::Text(String::from(
        "{\"name\": \"test\"}",
    )))));
    let twice = tester.test(&Input::Wrapped(Box::new(Input::Wrapped(Box::new(
        Input::Text(String::from("{\"name\": \"test\"}")),
    )))));
    assert!(matches!(&plain, TestResult::Failure { message, .. } if message == "got test"));
    assert!(plain == once);
    assert!(once == twice);

    let native = tester.test(&Input::Native(NativeVal::T1(MyTest {
        name: String::from("my_test"),
    })));
    let wrapped_native = tester.test(&Input::Wrapped(Box::new(Input::Native(NativeVal::T1(
        MyTest {
            name: String::from("my_test"),
        },
    )))));
    assert!(native == wrapped_native);
}

#[test]
fn repeated_dispatch_is_idempotent() {
    let tester = chain();
    let input = Input::Text(String::from("{\"name\": \"my_test\"}"));
    let first = tester.test(&input);
    let second = tester.test(&input);
    assert!(matches!(first, TestResult::Success(_)));
    assert!(first == second);
}

struct OkCheck {
    message: String,
}

impl Check for OkCheck {
    type Case = MyTest;

    fn run(&self, _case: MyTest) -> Result<String, Abort> {
        Ok(self.message.clone())
    }
}

struct BoomCheck;

impl Check for BoomCheck {
    type Case = MyTest;

    fn run(&self, _case: MyTest) -> Result<String, Abort> {
        Err(Abort {
            message: String::from("boom"),
            location: String::from("tests/tester.rs"),
        })
    }
}

enum OneTypePred {
    Succeed(String),
    Boom,
}

impl Predicate for OneTypePred {
    type Native = NativeVal;

    fn check(&self, input: &Input<NativeVal>) -> TestResult {
        match self {
            OneTypePred::Succeed(message) => SchemaPredicate {
                logic: OkCheck {
                    message: message.clone(),
                },
            }
            .check(input),
            OneTypePred::Boom => SchemaPredicate { logic: BoomCheck }.check(input),
        }
    }
}

#[test]
fn failure_dominates_earlier_success() {
    let mut tester = SimpleTester::new();
    tester.add(OneTypePred::Succeed(String::from("first")));
    tester.add(OneTypePred::Boom);
    let res = tester.test(&Input::Text(String::from("{\"name\": \"x\"}")));
    assert!(matches!(res, TestResult::Failure { message, .. } if message == "boom"));
}

#[test]
fn first_success_is_sticky() {
    let mut tester = SimpleTester::new();
    tester.add(OneTypePred::Succeed(String::from("first")));
    tester.add(OneTypePred::Succeed(String::from("second")));
    let res = tester.test(&Input::Text(String::from("{\"name\": \"x\"}")));
    assert!(matches!(res, TestResult::Success(message) if message == "first"));
}

#[test]
fn unhandled_when_no_schema_matches() {
    let tester = chain();
    let res = tester.test(&Input::Text(String::from("\"just a string\"")));
    assert!(res == TestResult::Unhandled);
    let res = tester.test(&Input::Text(String::from("[1, 2, 3]")));
    assert!(res == TestResult::Unhandled);
}

enum DirectOnlyPred {
    MyTestOnly,
}

impl Predicate for DirectOnlyPred {
    type Native = NativeVal;

    fn check(&self, input: &Input<NativeVal>) -> TestResult {
        match self {
            DirectOnlyPred::MyTestOnly => DirectPredicate {
                logic: SucceedsIfMyTestCheck,
            }
            .check(input),
        }
    }
}

#[test]
fn direct_predicates_never_parse() {
    let mut tester = SimpleTester::new();
    tester.add(DirectOnlyPred::MyTestOnly);

    let res = tester.test(&Input::Text(String::from("{\"name\": \"my_test\"}")));
    assert!(res == TestResult::Unhandled);

    let res = tester.test(&Input::Native(NativeVal::T1(MyTest {
        name: String::from("my_test"),
    })));
    assert!(matches!(res, TestResult::Success(_)));

    let res = tester.test(&Input::Wrapped(Box::new(Input::Native(NativeVal::T1(
        MyTest {
            name: String::from("my_test"),
        },
    )))));
    assert!(matches!(res, TestResult::Success(_)));
}

struct MarkT1;

impl SystemCheck for MarkT1 {
    type State = MyState;
    type Case = MyTest;

    fn run(&self, state: &mut MyState, _case: MyTest) -> Result<String, Abort> {
        state.state.push('1');
        Ok(String::from("null"))
    }
}

struct MarkT2;

impl SystemCheck for MarkT2 {
    type State = MyState;
    type Case = MyTest2;

    fn run(&self, state: &mut MyState, _case: MyTest2) -> Result<String, Abort> {
        state.state.push('2');
        Ok(String::from("null"))
    }
}

enum MarkPred {
    M1,
    M2,
}

impl SystemPredicate for MarkPred {
    type State = MyState;
    type Native = NativeVal;

    fn check(&self, state: &mut MyState, input: &Input<NativeVal>) -> TestResult {
        match self {
            MarkPred::M1 => SystemDirectPredicate { logic: MarkT1 }.check(state, input),
            MarkPred::M2 => SystemDirectPredicate { logic: MarkT2 }.check(state, input),
        }
    }
}

#[test]
fn stateful_dispatch_mutates_only_matching_state() {
    let mut tester = SystemTester::new();
    tester.add(MarkPred::M1);
    tester.add(MarkPred::M2);

    let mut state = MyState {
        state: String::new(),
    };
    let res = tester.test(
        &mut state,
        &Input::Native(NativeVal::T1(MyTest {
            name: String::from("x"),
        })),
    );
    assert!(matches!(res, TestResult::Success(_)));
    assert!(state.state == "1");

    let res = tester.test(
        &mut state,
        &Input::Native(NativeVal::T2(MyTest2 { id: 7 })),
    );
    assert!(matches!(res, TestResult::Success(_)));
    assert!(state.state == "12");

    let res = tester.test(&mut state, &Input::Text(String::from("{\"id\": 7}")));
    assert!(res == TestResult::Unhandled);
    assert!(state.state == "12");
}

struct MarkThenFail;

impl SystemCheck for MarkThenFail {
    type State = MyState;
    type Case = MyTest;

    fn run(&self, state: &mut MyState, _case: MyTest) -> Result<String, Abort> {
        state.state.push('f');
        Err(Abort {
            message: String::from("stateful boom"),
            location: String::from("tests/tester.rs"),
        })
    }
}

enum FailFirstPred {
    FailOnT1,
    MarkT1,
}

impl SystemPredicate for FailFirstPred {
    type State = MyState;
    type Native = NativeVal;

    fn check(&self, state: &mut MyState, input: &Input<NativeVal>) -> TestResult {
        match self {
            FailFirstPred::FailOnT1 => {
                SystemDirectPredicate { logic: MarkThenFail }.check(state, input)
            }
            FailFirstPred::MarkT1 => SystemDirectPredicate { logic: MarkT1 }.check(state, input),
        }
    }
}

#[test]
fn stateful_dispatch_short_circuits_on_failure() {
    let mut tester = SystemTester::new();
    tester.add(FailFirstPred::FailOnT1);
    tester.add(FailFirstPred::MarkT1);

    let mut state = MyState {
        state: String::new(),
    };
    let res = tester.test(
        &mut state,
        &Input::Native(NativeVal::T1(MyTest {
            name: String::from("x"),
        })),
    );
    assert!(matches!(res, TestResult::Failure { message, .. } if message == "stateful boom"));
    assert!(state.state == "f");
}

#[test]
fn capture_test_recovers_aborts() {
    let res = capture_test(|| Ok(String::from("ok")));
    assert!(matches!(res, TestResult::Success(message) if message == "ok"));

    let res = capture_test(|| {
        Err(Abort {
            message: String::from("went wrong"),
            location: String::from("here"),
        })
    });
    assert!(
        matches!(res, TestResult::Failure { message, location } if message == "went wrong" && location == "here")
    );
}

#[test]
fn verdict_equality() {
    assert!(TestResult::Unhandled == TestResult::Unhandled);
    assert!(TestResult::Success(String::from("a")) == TestResult::Success(String::from("a")));
    assert!(TestResult::Success(String::from("a")) != TestResult::Success(String::from("b")));
    assert!(TestResult::Success(String::from("a")) != TestResult::Unhandled);
}

#[test]
fn workers_rendering() {
    assert!(workers(Workers::Auto) == "auto");
    assert!(workers(Workers::Count(0)) == "0");
    assert!(workers(Workers::Count(4)) == "4");
    assert!(workers(Workers::Count(12345)) == "12345");
}
