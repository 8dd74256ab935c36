use metropipe::signature::{
    can_read_signature, parse_c_function, parse_function, parse_go_function,
    parse_python_function, parse_rust_function, FunctionSig,
};
use metropipe::text::{chars_of, decimal_chars, lines_of, split_chars, split_whitespace, trimmed};

fn pairs(v: &[(&str, &str)]) -> Vec<(String, String)> {
    v.iter().map(|(a, b)| (a.to_string(), b.to_string())).collect()
}

fn check(sig: &FunctionSig, name: &str, params: &[(&str, &str)], rets: &[(&str, &str)], lang: &str) {
    assert_eq!(sig.name, name);
    assert_eq!(sig.params, pairs(params));
    assert_eq!(sig.return_types, pairs(rets));
    assert_eq!(sig.source_lang, lang);
}

#[test]
fn python_signature_with_annotations() {
    let src = "import os\n\n  def classify(self, image_path: str, top_k: int) -> str:\n    pass\n";
    let sig = parse_python_function("classify", src);
    check(&sig, "classify", &[("image_path", "str"), ("top_k", "int")], &[("return", "str")], "python");
}

#[test]
fn python_tuple_return_is_a_result() {
    let src = "def f(a, b: float) -> Tuple[str, float]:\n";
    let sig = parse_python_function("f", src);
    check(&sig, "f", &[("a", "Data"), ("b", "float")], &[("result", "Tuple[str, float]")], "python");
}

#[test]
fn python_missing_function_gives_defaults() {
    let sig = parse_python_function("g", "def f(x):\n    pass\n");
    check(&sig, "g", &[], &[("return", "Data")], "python");
}

#[test]
fn rust_signature() {
    let src = "fn add(a: i32, b: i64) -> i64 {\n    a as i64 + b\n}\n";
    let sig = parse_rust_function("add", src);
    check(&sig, "add", &[("a", "i32"), ("b", "i64")], &[("result", "i64")], "rust");
    let sig = parse_rust_function("run", "fn run(self_only) {\r\n}");
    check(&sig, "run", &[], &[("result", "Data")], "rust");
}

#[test]
fn go_signature_reads_name_and_type_words() {
    let src = "package x\nfunc Sum(a int, b map[string] int)int {\n";
    let sig = parse_go_function("Sum", src);
    check(&sig, "Sum", &[("a", "int"), ("b", "map[string] int")], &[("result", "int")], "go");
    let src = "func Pair(a int) (int, error) {\n";
    let sig = parse_go_function("Pair", src);
    check(&sig, "Pair", &[("a", "int")], &[("result", "int"), ("result", "error")], "go");
    let src = "func Pair(x) ( int, error) {\n";
    let sig = parse_go_function("Pair", src);
    check(&sig, "Pair", &[("x", "Data")], &[("result", "int"), ("result", "error")], "go");
    let sig = parse_go_function("F", "func F(a int) int, error ,(\n");
    check(&sig, "F", &[("a", "int")], &[("result", "int, error ,(")], "go");
    let sig = parse_go_function("Add", "func Add(a int, b int) int {\n");
    check(&sig, "Add", &[("a", "int"), ("b", "int")], &[("result", "int")], "go");
    let sig = parse_go_function("Run", "func Run(a int) {\n");
    check(&sig, "Run", &[("a", "int")], &[("result", "Data")], "go");
}

#[test]
fn c_signature_from_a_line_naming_the_function() {
    let src = "#include <x.h>\nint add(int a, unsigned long b); /* add) */\n";
    let sig = parse_c_function("add", src);
    check(&sig, "add", &[("a", "int"), ("b", "unsigned long")], &[("return", "int")], "c");
    let sig = parse_c_function("add", "int add(int a, int b);\n");
    check(&sig, "add", &[("a", "int"), ("b", "int")], &[("return", "int")], "c");
    let sig = parse_c_function("add", "/* add) */\nstatic long add(long x);\n");
    check(&sig, "add", &[("x", "long")], &[("return", "static long")], "c");
    let sig = parse_c_function("f", "f(void) g(f)\n");
    check(&sig, "f", &[], &[("return", "void")], "c");
}

#[test]
fn unknown_language_gives_raw_bytes() {
    let sig = parse_function("bash", "handler", "handler() { echo; }");
    check(&sig, "handler", &[], &[("Result", "Data")], "bash");
    let sig = parse_function("python", "f", "def f(x: int):\n");
    check(&sig, "f", &[("x", "int")], &[("return", "Data")], "python");
}

#[test]
fn readability_of_declaration_lines() {
    assert!(can_read_signature("python", "f", "def f(x) -> int:\n"));
    assert!(!can_read_signature("python", "f", "def f(x,\n      y):\n"));
    assert!(!can_read_signature("rust", "a)b", "fn a)b(x)\n"));
    assert!(can_read_signature("rust", "f", "no function here"));
    assert!(can_read_signature("go", "F", "func F(x int)(int) {\n"));
    assert!(!can_read_signature("go", "F)", "func F)(x int) int {\n"));
    assert!(can_read_signature("go", "F", "func F(x int) (int)\n"));
    assert!(!can_read_signature("c", "a)", "x(a), a)(y)\n"));
    assert!(can_read_signature("c", "a", "int a(int x, a);\n"));
    assert!(can_read_signature("java", "a)", "whatever"));
    assert!(can_read_signature("ts", "f)", "function f)(a: number) {\n"));
    assert!(can_read_signature("js", "f", "function f(a, b\n"));
}

#[test]
fn text_helpers() {
    assert_eq!(trimmed("\u{a0}\t hello world \u{3000}\r\n"), "hello world");
    assert_eq!(trimmed("   "), "");
    assert_eq!(decimal_chars(0), vec!['0']);
    assert_eq!(decimal_chars(4096), chars_of("4096"));
    assert_eq!(decimal_chars(1234567890), chars_of("1234567890"));
}

#[test]
fn lines_and_pieces() {
    let text = chars_of("a\r\nb\rc\n\nd");
    let lines: Vec<String> = lines_of(&text).iter().map(|l| l.iter().collect()).collect();
    assert_eq!(lines, vec!["a", "b\rc", "", "d"]);
    assert!(lines_of(&chars_of("")).is_empty());
    assert_eq!(lines_of(&chars_of("x\n")).len(), 1);
    let pieces: Vec<String> = split_chars(&chars_of("a,,b,"), ',').iter().map(|l| l.iter().collect()).collect();
    assert_eq!(pieces, vec!["a", "", "b", ""]);
    let words: Vec<String> = split_whitespace(&chars_of("  unsigned\tlong  b ")).iter().map(|l| l.iter().collect()).collect();
    assert_eq!(words, vec!["unsigned", "long", "b"]);
}

#[test]
fn javascript_and_ruby_parameters_are_untyped() {
    let sig = parse_function("js", "f", "function f(a, b) {}");
    check(&sig, "f", &[("a", "Data"), ("b", "Data")], &[("return", "Data")], "js");
    let sig = parse_function("js", "g", "function g(x\n");
    check(&sig, "g", &[("x", "Data")], &[("return", "Data")], "js");
    let sig = parse_function("ruby", "greet", "class A\n  def greet(name, greeting)\n  end\n");
    check(&sig, "greet", &[("name", "Data"), ("greeting", "Data")], &[("return", "Data")], "ruby");
    let sig = parse_function("ruby", "missing", "def other(x)\n");
    check(&sig, "missing", &[], &[("return", "Data")], "ruby");
}

#[test]
fn typescript_reads_annotations() {
    let src = "function add(a: number, b): Promise<number> {\n";
    let sig = parse_function("ts", "add", src);
    check(&sig, "add", &[("a", "number"), ("b", "Data")], &[("return", "Promise<number>")], "ts");
    let sig = parse_function("ts", "run", "function run() {\n");
    check(&sig, "run", &[], &[("return", "Data")], "ts");
    let sig = parse_function("ts", "f)", "function f)(a: number) {\n");
    check(&sig, "f)", &[("a", "number")], &[("return", "Data")], "ts");
}

#[test]
fn java_and_csharp_read_typed_methods() {
    let src = "public class M {\n    public static int add(int a, int b) {\n";
    let sig = parse_function("java", "add", src);
    check(&sig, "add", &[("a", "int"), ("b", "int")], &[("return", "int")], "java");
    let src = "public static string Greet(string name) {\n";
    let sig = parse_function("csharp", "Greet", src);
    check(&sig, "Greet", &[("name", "string")], &[("return", "string")], "csharp");
    let sig = parse_function("java", "absent", "class M {}\n");
    check(&sig, "absent", &[], &[("return", "void")], "java");
}
