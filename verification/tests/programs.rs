use mini_script::eval::{Environment, Failure, Fragment};
use mini_script::ir::{build, parsing, Location, SemanticError, SyntaxError, IR};
use mini_script::run::{call_builtin, interpret, run_ir, Report, RuntimeError};
use mini_script::tree::{Node, Rule};
use mini_script::value::{Data, Operation};

fn bits(x: f64) -> u64 {
    x.to_bits()
}

fn inner(text: &str, line: usize) -> Node {
    let numeral = text.parse::<f64>().ok().map(f64::to_bits);
    Node::leaf(Rule::Other, text.to_string(), line, numeral)
}

fn number(text: &str, line: usize) -> Node {
    Node::branch(Rule::Number, text.to_string(), line, vec![inner(text, line)])
}

fn string(text: &str, line: usize) -> Node {
    Node::branch(Rule::String, text.to_string(), line, vec![inner(text, line)])
}

fn identifier(text: &str, line: usize) -> Node {
    Node::leaf(Rule::Identifier, text.to_string(), line, None)
}

fn math(left: Node, op: &str, right: Node, line: usize) -> Node {
    let text = format!("{} {} {}", left.text, op, right.text);
    let operator = Node::leaf(Rule::Other, op.to_string(), line, None);
    Node::branch(Rule::MathExpression, text, line, vec![left, operator, right])
}

fn argument(value: Node) -> Node {
    Node::branch(Rule::Other, value.text.clone(), value.line, vec![value])
}

fn call(name: &str, values: Vec<Node>, line: usize) -> Node {
    let mut texts = Vec::new();
    let mut children = vec![identifier(name, line)];
    for value in values {
        texts.push(value.text.clone());
        children.push(argument(value));
    }
    let text = format!("{}({})", name, texts.join(", "));
    Node::branch(Rule::FunctionCall, text, line, children)
}

fn assignment(name: &str, value: Node, line: usize) -> Node {
    let text = format!("{}={}", name, value.text);
    Node::branch(Rule::Assignment, text, line, vec![identifier(name, line), value])
}

fn statement(kind: Node) -> Node {
    Node::branch(Rule::Statement, kind.text.clone(), kind.line, vec![kind])
}

fn program(kinds: Vec<Node>) -> Node {
    let mut children: Vec<Node> = kinds.into_iter().map(statement).collect();
    children.push(Node::leaf(Rule::Other, String::new(), 1, None));
    Node::branch(Rule::Program, String::new(), 1, children)
}

fn render(fragments: &[Fragment]) -> String {
    let mut out = String::new();
    for fragment in fragments {
        match fragment {
            Fragment::Text(s) => out.push_str(s),
            Fragment::Number(a) => out.push_str(&f64::from_bits(*a).to_string()),
            Fragment::Arithmetic(operation, a, b) => {
                let (x, y) = (f64::from_bits(*a), f64::from_bits(*b));
                let value = match operation {
                    Operation::Add => x + y,
                    Operation::Subtract => x - y,
                    Operation::Multiply => x * y,
                    Operation::Divide => x / y,
                };
                out.push_str(&value.to_string());
            }
        }
    }
    out
}

fn lines(output: &[Vec<Fragment>]) -> Vec<String> {
    output.iter().map(|line| render(line)).collect()
}

fn run(kinds: Vec<Node>) -> (Vec<String>, Option<String>) {
    let Report { output, error } = interpret(Ok(program(kinds)));
    (lines(&output), error)
}

fn num(x: f64) -> Data {
    Data::Number(bits(x))
}

fn var(s: &str) -> Data {
    Data::Variable(s.to_string())
}

fn unbalanced() -> SyntaxError {
    SyntaxError {
        location: Location::Pos((1, 9)),
        message: "expected math_expression".to_string(),
        line: "print((x);".to_string(),
    }
}

#[test]
fn program_is_built_in_source_order() {
    let tree = program(vec![
        assignment("x", math(number("4", 1), "*", number("2", 1), 1), 1),
        call("print", vec![identifier("x", 1)], 1),
    ]);
    let expected = vec![
        IR::Assignment(
            "x".to_string(),
            Data::MathExpression(Box::new(num(4.0)), Operation::Multiply, Box::new(num(2.0))),
        ),
        IR::Function("print".to_string(), vec![var("x")]),
    ];
    assert_eq!(build(&tree), Ok(expected));
}

#[test]
fn call_keeps_its_arguments_in_order() {
    let tree = program(vec![call(
        "show",
        vec![number("1", 1), string("\"two\"", 1), identifier("three", 1)],
        1,
    )]);
    let expected = vec![IR::Function(
        "show".to_string(),
        vec![num(1.0), Data::String("two".to_string()), var("three")],
    )];
    assert_eq!(build(&tree), Ok(expected));
}

#[test]
fn call_without_arguments_has_none() {
    let tree = program(vec![call("print", vec![], 1)]);
    assert_eq!(build(&tree), Ok(vec![IR::Function("print".to_string(), vec![])]));
}

#[test]
fn call_without_children_has_an_empty_name() {
    let bare = Node::branch(Rule::FunctionCall, "()".to_string(), 1, vec![]);
    let tree = program(vec![bare]);
    assert_eq!(build(&tree), Ok(vec![IR::Function(String::new(), vec![])]));
}

#[test]
fn bare_expression_statement_is_passed_over() {
    let tree = program(vec![
        math(number("1", 1), "+", number("2", 1), 1),
        call("print", vec![number("3", 1)], 1),
    ]);
    assert_eq!(
        build(&tree),
        Ok(vec![IR::Function("print".to_string(), vec![num(3.0)])])
    );
}

#[test]
fn bare_expression_that_denotes_nothing_is_passed_over_too() {
    let tree = program(vec![math(number("1", 1), "%", number("2", 1), 1)]);
    assert_eq!(build(&tree), Ok(vec![]));
}

#[test]
fn nodes_that_are_no_statements_are_passed_over() {
    let stray = call("print", vec![number("1", 1)], 1);
    let empty = Node::branch(Rule::Statement, String::new(), 1, vec![]);
    let other = Node::branch(
        Rule::Statement,
        "x".to_string(),
        1,
        vec![identifier("x", 1)],
    );
    let tree = Node::branch(Rule::Program, String::new(), 1, vec![stray, empty, other]);
    assert_eq!(build(&tree), Ok(vec![]));
}

#[test]
fn empty_program_has_no_statements() {
    let tree = Node::branch(Rule::Program, String::new(), 1, vec![]);
    assert_eq!(build(&tree), Ok(vec![]));
}

#[test]
fn argument_that_denotes_nothing_is_a_semantic_error() {
    let tree = program(vec![
        call("print", vec![number("1", 1)], 1),
        call("print", vec![number("2", 3), number("2x", 3), number("y", 3)], 3),
    ]);
    let error = SemanticError { text: "2x".to_string(), line: 3 };
    assert_eq!(error.message(), "Invalid argument: 2x On line: 3");
    assert_eq!(build(&tree), Err(error));
    assert_eq!(
        parsing(Ok(tree)),
        Err("Invalid argument: 2x On line: 3".to_string())
    );
}

#[test]
fn argument_without_a_value_node_is_a_semantic_error() {
    let hollow = Node::branch(Rule::Other, "?".to_string(), 2, vec![]);
    let node = Node::branch(
        Rule::FunctionCall,
        "print(?)".to_string(),
        2,
        vec![identifier("print", 2), hollow],
    );
    assert_eq!(
        build(&program(vec![node])),
        Err(SemanticError { text: "?".to_string(), line: 2 })
    );
}

#[test]
fn assigned_value_that_denotes_nothing_is_a_semantic_error() {
    let tree = program(vec![
        assignment("a", number("1", 1), 1),
        assignment("total", math(number("1", 12), "%", number("2", 12), 12), 12),
        assignment("b", number("oops", 13), 13),
    ]);
    assert_eq!(
        parsing(Ok(tree)),
        Err("Invalid argument: total On line: 12".to_string())
    );
}

#[test]
fn assignment_without_a_value_is_a_semantic_error() {
    let lone = Node::branch(
        Rule::Assignment,
        "x=".to_string(),
        4,
        vec![identifier("x", 4)],
    );
    assert_eq!(
        build(&program(vec![lone])),
        Err(SemanticError { text: "x".to_string(), line: 4 })
    );
    let bare = Node::branch(Rule::Assignment, "=".to_string(), 5, vec![]);
    assert_eq!(
        build(&program(vec![bare])),
        Err(SemanticError { text: String::new(), line: 5 })
    );
}

#[test]
fn syntax_error_becomes_its_diagnostic() {
    assert_eq!(
        unbalanced().diagnostic(),
        "on Line: Pos((1, 9)) -> Syntax Error: expected math_expression -> print((x);"
    );
    assert_eq!(
        parsing(Err(unbalanced())),
        Err("on Line: Pos((1, 9)) -> Syntax Error: expected math_expression -> print((x);"
            .to_string())
    );
}

#[test]
fn syntax_error_over_a_span_gives_both_ends() {
    let error = SyntaxError {
        location: Location::Span((12, 3), (14, 10)),
        message: "unexpected statement".to_string(),
        line: "  oops".to_string(),
    };
    assert_eq!(
        error.diagnostic(),
        "on Line: Span((12, 3), (14, 10)) -> Syntax Error: unexpected statement ->   oops"
    );
}

#[test]
fn syntax_error_prints_nothing() {
    let report = interpret(Err(unbalanced()));
    assert_eq!(report.output, Vec::<Vec<Fragment>>::new());
    assert_eq!(
        report.error,
        Some(
            "Error: on Line: Pos((1, 9)) -> Syntax Error: expected math_expression -> print((x);"
                .to_string()
        )
    );
}

#[test]
fn semantic_error_prints_nothing() {
    let (output, error) = run(vec![
        call("print", vec![number("1", 1)], 1),
        call("print", vec![number("1x", 2)], 2),
    ]);
    assert_eq!(output, Vec::<String>::new());
    assert_eq!(error, Some("Error: Invalid argument: 1x On line: 2".to_string()));
}

#[test]
fn multiply_assigned_then_printed() {
    let (output, error) = run(vec![
        assignment("x", math(number("4", 1), "*", number("2", 1), 1), 1),
        call("print", vec![identifier("x", 1)], 1),
    ]);
    assert_eq!(output, vec!["8".to_string()]);
    assert_eq!(error, None);
}

#[test]
fn assigned_number_is_printed_in_decimal() {
    for (literal, expected) in [
        ("4", "4"),
        ("4.50", "4.5"),
        ("0", "0"),
        ("007", "7"),
        ("0.1", "0.1"),
        ("1234567.125", "1234567.125"),
    ] {
        let (output, error) = run(vec![
            assignment("x", number(literal, 1), 1),
            call("print", vec![identifier("x", 1)], 1),
        ]);
        assert_eq!(output, vec![expected.to_string()]);
        assert_eq!(error, None);
    }
}

#[test]
fn number_plus_string_is_printed() {
    let (output, error) = run(vec![call(
        "print",
        vec![math(number("4", 1), "+", string("\"a\"", 1), 1)],
        1,
    )]);
    assert_eq!(output, vec!["4a".to_string()]);
    assert_eq!(error, None);
}

#[test]
fn string_plus_number_is_printed() {
    let (output, error) = run(vec![call(
        "print",
        vec![math(string("\"a\"", 1), "+", number("4", 1), 1)],
        1,
    )]);
    assert_eq!(output, vec!["a4".to_string()]);
    assert_eq!(error, None);
}

#[test]
fn string_plus_variable_is_printed() {
    let (output, error) = run(vec![
        assignment("n", number("4", 1), 1),
        call(
            "print",
            vec![math(string("'a'", 2), "+", identifier("n", 2), 2)],
            2,
        ),
    ]);
    assert_eq!(output, vec!["a4".to_string()]);
    assert_eq!(error, None);
}

#[test]
fn variable_plus_number_is_a_mismatch() {
    let (output, error) = run(vec![
        assignment("y", string("\"a\"", 1), 1),
        call(
            "print",
            vec![math(identifier("y", 1), "+", number("4", 1), 1)],
            1,
        ),
    ]);
    assert_eq!(output, Vec::<String>::new());
    assert_eq!(error, Some("INVALID ARGUMENT".to_string()));
}

#[test]
fn subtract_of_a_variable_fails() {
    let (output, error) = run(vec![
        assignment("x", number("2", 1), 1),
        call(
            "print",
            vec![math(number("3", 1), "-", identifier("x", 1), 1)],
            1,
        ),
    ]);
    assert_eq!(output, Vec::<String>::new());
    assert_eq!(error, Some("INVALID ARGUMENT".to_string()));
}

#[test]
fn division_by_zero_is_printed() {
    let (output, error) = run(vec![
        call("print", vec![math(number("1", 1), "/", number("0", 1), 1)], 1),
        call("print", vec![math(number("0", 2), "/", number("0", 2), 2)], 2),
    ]);
    assert_eq!(output, vec!["inf".to_string(), "NaN".to_string()]);
    assert_eq!(error, None);
}

#[test]
fn print_of_unassigned_variable_names_it() {
    let tokens = vec![IR::Function("print".to_string(), vec![var("x")])];
    let execution = run_ir(tokens);
    assert_eq!(execution.output, Vec::<Vec<Fragment>>::new());
    assert_eq!(
        execution.result,
        Err(RuntimeError::InvalidArgument(Failure::Unresolved("x".to_string())))
    );
    let (output, error) = run(vec![call("print", vec![identifier("x", 1)], 1)]);
    assert_eq!(output, Vec::<String>::new());
    assert_eq!(error, Some("INVALID ARGUMENT: unresolved variable x".to_string()));
}

#[test]
fn variable_assigned_after_its_use_is_unresolved() {
    let (output, error) = run(vec![
        call("print", vec![identifier("x", 1)], 1),
        assignment("x", number("1", 2), 2),
    ]);
    assert_eq!(output, Vec::<String>::new());
    assert_eq!(error, Some("INVALID ARGUMENT: unresolved variable x".to_string()));
}

#[test]
fn unknown_function_stops_the_run() {
    let (output, error) = run(vec![
        call("print", vec![number("1", 1)], 1),
        call("show", vec![number("2", 2)], 2),
        call("print", vec![number("3", 3)], 3),
    ]);
    assert_eq!(output, vec!["1".to_string()]);
    assert_eq!(error, Some("NO FUNCTION FOUND WITH THIS NAME".to_string()));
}

#[test]
fn unknown_function_is_named_in_the_error() {
    let execution = run_ir(vec![IR::Function("show".to_string(), vec![num(1.0)])]);
    assert_eq!(
        execution.result,
        Err(RuntimeError::UnknownFunction("show".to_string()))
    );
    let nameless = run_ir(vec![IR::Function(String::new(), vec![])]);
    assert_eq!(
        nameless.result,
        Err(RuntimeError::UnknownFunction(String::new()))
    );
}

#[test]
fn print_writes_one_line_for_each_argument() {
    let (output, error) = run(vec![call(
        "print",
        vec![number("1", 1), string("\"two\"", 1), number("3", 1)],
        1,
    )]);
    assert_eq!(
        output,
        vec!["1".to_string(), "two".to_string(), "3".to_string()]
    );
    assert_eq!(error, None);
}

#[test]
fn print_keeps_the_lines_before_a_failing_argument() {
    let (output, error) = run(vec![call(
        "print",
        vec![number("1", 1), identifier("missing", 1), number("3", 1)],
        1,
    )]);
    assert_eq!(output, vec!["1".to_string()]);
    assert_eq!(
        error,
        Some("INVALID ARGUMENT: unresolved variable missing".to_string())
    );
}

#[test]
fn print_without_arguments_prints_nothing() {
    let (output, error) = run(vec![call("print", vec![], 1)]);
    assert_eq!(output, Vec::<String>::new());
    assert_eq!(error, None);
}

#[test]
fn statements_after_an_error_do_not_run() {
    let (output, error) = run(vec![
        call("print", vec![string("\"first\"", 1)], 1),
        call("print", vec![identifier("x", 2)], 2),
        assignment("x", number("1", 3), 3),
        call("print", vec![string("\"last\"", 4)], 4),
    ]);
    assert_eq!(output, vec!["first".to_string()]);
    assert_eq!(error, Some("INVALID ARGUMENT: unresolved variable x".to_string()));
}

#[test]
fn assignment_overwrites_an_earlier_one() {
    let (output, error) = run(vec![
        assignment("x", number("1", 1), 1),
        call("print", vec![identifier("x", 2)], 2),
        assignment("x", string("\"two\"", 3), 3),
        call("print", vec![identifier("x", 4)], 4),
    ]);
    assert_eq!(output, vec!["1".to_string(), "two".to_string()]);
    assert_eq!(error, None);
}

#[test]
fn binding_is_resolved_when_it_is_used() {
    let (output, error) = run(vec![
        assignment("a", math(string("\"b is \"", 1), "+", identifier("b", 1), 1), 1),
        assignment("b", number("1", 2), 2),
        call("print", vec![identifier("a", 3)], 3),
        assignment("b", number("2", 4), 4),
        call("print", vec![identifier("a", 5)], 5),
    ]);
    assert_eq!(output, vec!["b is 1".to_string(), "b is 2".to_string()]);
    assert_eq!(error, None);
}

#[test]
fn variable_assigned_to_itself_is_circular() {
    let (output, error) = run(vec![
        assignment("x", identifier("x", 1), 1),
        call("print", vec![identifier("x", 2)], 2),
    ]);
    assert_eq!(output, Vec::<String>::new());
    assert_eq!(error, Some("INVALID ARGUMENT: circular variable x".to_string()));
}

#[test]
fn runtime_errors_have_their_messages() {
    assert_eq!(
        RuntimeError::UnknownFunction("show".to_string()).message(),
        "NO FUNCTION FOUND WITH THIS NAME"
    );
    assert_eq!(
        RuntimeError::InvalidArgument(Failure::Mismatch).message(),
        "INVALID ARGUMENT"
    );
    assert_eq!(
        RuntimeError::InvalidArgument(Failure::Unresolved("n".to_string())).message(),
        "INVALID ARGUMENT: unresolved variable n"
    );
    assert_eq!(
        RuntimeError::InvalidArgument(Failure::Circular("n".to_string())).message(),
        "INVALID ARGUMENT: circular variable n"
    );
}

#[test]
fn builtin_adds_its_lines_to_the_output() {
    let mut variables = Environment::new();
    variables.insert("x".to_string(), num(8.0));
    let mut output = vec![vec![Fragment::Text("earlier".to_string())]];
    let result = call_builtin("print", &vec![var("x"), num(1.0)], &variables, &mut output);
    assert_eq!(result, Ok(()));
    assert_eq!(
        lines(&output),
        vec!["earlier".to_string(), "8".to_string(), "1".to_string()]
    );
    let unknown = call_builtin("Print", &vec![num(1.0)], &variables, &mut output);
    assert_eq!(unknown, Err(RuntimeError::UnknownFunction("Print".to_string())));
    assert_eq!(output.len(), 3);
}
