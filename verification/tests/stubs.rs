use metropipe::client::{
    generate_bash_stub, generate_c_stub, generate_csharp_stub, generate_go_stub,
    generate_java_stub, generate_js_stub, generate_python_stub, generate_ruby_stub,
    generate_rust_stub, is_capitalizable, all_client_stubs, service_definition, bind_definition, service_name_of,
};
use metropipe::header::header_functions;
use metropipe::signature::FunctionSig;
use metropipe::stub::{generate_provider, generate_target_stub, stub_files_for_lang};
use metropipe::types::{
    compute_layout, ext_for_target, layout_fits, type_size_bytes, type_to_c, type_to_python,
    type_to_rust,
};

fn sig(params: &[(&str, &str)], rets: &[(&str, &str)], lang: &str) -> FunctionSig {
    FunctionSig {
        name: "classify".to_string(),
        params: params.iter().map(|(a, b)| (a.to_string(), b.to_string())).collect(),
        return_types: rets.iter().map(|(a, b)| (a.to_string(), b.to_string())).collect(),
        source_lang: lang.to_string(),
    }
}

#[test]
fn type_names_across_languages() {
    assert_eq!(type_to_rust(" int "), "i64");
    assert_eq!(type_to_rust("Float"), "f64");
    assert_eq!(type_to_rust("bytes"), "Vec<u8>");
    assert_eq!(type_to_rust("Widget"), "String");
    assert_eq!(type_to_python("i64"), "int");
    assert_eq!(type_to_python("Widget"), "Any");
    assert_eq!(type_to_c("long"), "int64_t");
    assert_eq!(type_to_c("string"), "const char*");
    assert_eq!(type_to_c("Widget"), "void*");
    assert_eq!(type_size_bytes("bool"), 1);
    assert_eq!(type_size_bytes("i32"), 4);
    assert_eq!(type_size_bytes("double"), 8);
    assert_eq!(type_size_bytes("str"), 256);
    assert_eq!(type_size_bytes("Data"), 4096);
    assert_eq!(type_size_bytes("Widget"), 4);
}

#[test]
fn layout_aligns_each_field_to_four_bytes() {
    let params = sig(&[("a", "bool"), ("b", "int"), ("c", "bool"), ("d", "str")], &[], "python").params;
    let (layout, total) = compute_layout(&params);
    assert_eq!(layout, vec![(0, 1), (4, 4), (8, 1), (12, 256)]);
    assert_eq!(total, 268);
    assert!(layout_fits(&params));
    let (empty, zero) = compute_layout(&[]);
    assert!(empty.is_empty());
    assert_eq!(zero, 0);
}

#[test]
fn stub_extensions() {
    assert_eq!(ext_for_target("c"), "h");
    assert_eq!(ext_for_target("c-linker"), "h");
    assert_eq!(ext_for_target("csharp"), "cs");
    assert_eq!(ext_for_target("bash"), "sh");
    assert_eq!(ext_for_target("cobol"), "txt");
}

#[test]
fn rust_stub_packs_each_parameter() {
    let s = sig(&[("image_path", "str"), ("top_k", "int"), ("fast", "bool")], &[("return", "str")], "python");
    let (name, content) = generate_target_stub("rust", &s, "classify").unwrap();
    assert_eq!(name, "stub.rs");
    assert!(content.starts_with("\nuse std::fs::OpenOptions;\n"));
    assert!(content.contains("pub fn classify(image_path: &str, top_k: i64, fast: bool) -> Result<String, String> {\n    let mut args = serde_json::Map::new();\n"));
    assert!(content.contains("    args.insert(\"image_path\".to_string(), serde_json::to_value(&image_path).map_err(|e| e.to_string())?);\n    args.insert(\"top_k\".to_string(), serde_json::to_value(&top_k).map_err(|e| e.to_string())?);\n    args.insert(\"fast\".to_string(), serde_json::to_value(&fast).map_err(|e| e.to_string())?);\n    let req = serde_json::to_vec(&serde_json::Value::Object(args))"));
    assert!(content.contains("    let path = format!(\"{}/metro_classify\", shm);\n"));
    assert!(content.contains("    buf[32..32 + req.len()].copy_from_slice(&req);\n"));
    assert!(content.contains("return serde_json::from_value(reply[\"result\"].take())"));
    assert!(!content.contains("REQ_SIZE"));
}

#[test]
fn rust_stub_borrows_text_and_returns_tuples() {
    let s = sig(&[("image_path", "str"), ("top_k", "int")], &[("result", "Tuple[str, float]")], "python");
    let (_, content) = generate_target_stub("rust", &s, "classify").unwrap();
    assert!(content.contains("fn classify(image_path: &str, top_k: i64) -> Result<(String, f64), String>"));
    let s = sig(&[], &[("result", " tuple[int,bool, bytes] ")], "python");
    let (_, content) = generate_target_stub("rust", &s, "pair").unwrap();
    assert!(content.contains("pub fn pair() -> Result<(i64, bool, Vec<u8>), String> {"));
    let s = sig(&[("name", "String")], &[("return", "Tuple[str")], "rust");
    let (_, content) = generate_target_stub("rust", &s, "f").unwrap();
    assert!(content.contains("pub fn f(name: &str) -> Result<String, String> {"));
}

#[test]
fn python_and_c_stubs() {
    let s = sig(&[("x", "float"), ("flag", "Bool")], &[("return", "int")], "python");
    let (name, content) = generate_target_stub("python", &s, "classify").unwrap();
    assert_eq!(name, "stub.py");
    assert!(content.contains("def classify(x: float, flag: bool):\n"));
    assert!(content.contains("import struct, time, os, json\n"));
    assert!(content.contains("    data = json.dumps({\"x\": x, \"flag\": flag, }).encode()\n"));
    assert!(content.contains("    mm[32:32+len(data)] = data\n"));
    assert!(content.contains("    struct.pack_into(\"<I\", mm, 8, len(data))\n"));
    assert!(content.contains("            return resp[\"result\"]\n"));
    let none = sig(&[], &[], "python");
    let (_, content) = generate_target_stub("python", &none, "ping").unwrap();
    assert!(content.contains("def ping():\n"));
    assert!(content.contains("    data = json.dumps({}).encode()\n"));
    let (name, content) = generate_target_stub("c", &s, "classify").unwrap();
    assert_eq!(name, "stub.h");
    assert!(content.contains("int32_t classify(float x, uint8_t flag) {\n"));
    assert!(content.contains("    METRO_PUT(\"{\");\n    METRO_PUT(\"%s\\\"x\\\": %.17g\", sep, (double)x); sep = \", \";\n    METRO_PUT(\"%s\\\"flag\\\": %s\", sep, flag ? \"true\" : \"false\"); sep = \", \";\n    METRO_PUT(\"}\");\n"));
    assert!(content.contains("    memcpy(buf + 32, req, n);\n    *size = (uint32_t)n;\n"));
    assert!(content.contains("    long long v = strtoll(value, NULL, 10);\n    free(reply);\n    return (int32_t)v;\n}\n"));
    let t = sig(&[("name", "str"), ("n", "i64")], &[("return", "str")], "python");
    let (_, content) = generate_target_stub("c", &t, "greet").unwrap();
    assert!(content.contains("const char* greet(const char* name, int64_t n) {\n"));
    assert!(content.contains("    METRO_PUT(\"%s\\\"name\\\": \\\"%s\\\"\", sep, (const char *)name); sep = \", \";\n    METRO_PUT(\"%s\\\"n\\\": %lld\", sep, (long long)n); sep = \", \";\n"));
    assert!(content.contains("    char *text = NULL;\n"));
    let u = sig(&[], &[("return", "Float")], "python");
    let (_, content) = generate_target_stub("c", &u, "pi").unwrap();
    assert!(content.contains("    double v = strtod(value, NULL);\n    free(reply);\n    return (double)v;\n"));
    let w = sig(&[], &[("return", "Bool")], "python");
    let (_, content) = generate_target_stub("c", &w, "ok").unwrap();
    assert!(content.contains("    uint8_t v = strncmp(value, \"true\", 4) == 0"));
    let x = sig(&[], &[], "python");
    let (_, content) = generate_target_stub("c", &x, "raw").unwrap();
    assert!(content.contains("void* raw() {\n"));
    assert!(content.contains("    return (void*)reply;\n}\n"));
    let (name, content) = generate_target_stub("c-direct", &s, "classify").unwrap();
    assert_eq!(name, "registry.h");
    assert!(content.contains("typedef int32_t (*classify_fn)(float x, uint8_t flag);\n"));
}

#[test]
fn c_linker_and_other_targets() {
    let s = sig(&[("n", "i64")], &[("return", "i64"), ("extra", "str")], "rust");
    let (name, content) = generate_target_stub("c-linker", &s, "classify").unwrap();
    assert_eq!(name, "classify.h");
    assert!(content.contains("#ifndef METROPIPE_CLASSIFY_H\n"));
    assert!(content.contains("void* classify(int64_t n);\n"));
    let (name, content) = generate_target_stub("ruby", &s, "classify").unwrap();
    assert_eq!(name, "stub.rb");
    assert_eq!(content, "// metropipe stub for classify (ruby)\n");
    let files = stub_files_for_lang("c-linker", &s, "classify");
    assert_eq!(files.len(), 3);
    assert_eq!(files[0].0, "classify.h");
    assert_eq!(files[1].0, "classify.c");
    assert!(files[1].1.starts_with("#include \"classify.h\"\n"));
    assert_eq!(files[2].0, "Makefile");
    assert_eq!(files[2].1, "all:\n\tcc -shared -o libclassify.so classify.c -lrt\nclean:\n\trm -f libclassify.so\n");
    let files = stub_files_for_lang("go", &s, "classify");
    assert_eq!(files.len(), 1);
    assert_eq!(files[0].0, "stub.go");
}

#[test]
fn provider_imports_the_source_module() {
    let s = sig(&[("a", "int"), ("b", "str")], &[("return", "str")], "python");
    let p = generate_provider(&s, "src/services.py");
    assert!(p.contains("mod = importlib.import_module(\"services\")\nclassify = getattr(mod, \"classify\")\n"));
    assert!(p.contains("        f.truncate(32 + 4096)\n        f.seek(12)\n        f.write(struct.pack(\"<I\", 4096))\n"));
    assert!(p.contains("decode())\n        a = req_data[\"a\"]\n        b = req_data[\"b\"]\n        result = classify(a, b)\n"));
    let p = generate_provider(&s, "");
    assert!(p.contains("import_module(\"module\")"));
    let r = sig(&[], &[], "bash");
    assert_eq!(generate_provider(&r, "x.sh"), "# provider for classify \u{2014} run with your language's runtime\n");
}

#[test]
fn service_clients() {
    assert!(is_capitalizable("weatherApi"));
    assert!(!is_capitalizable(""));
    assert!(!is_capitalizable("\u{e9}t\u{e9}"));
    let (name, content) = generate_c_stub("WeatherApi");
    assert_eq!(name, "metropipe_WeatherApi.h");
    assert!(content.starts_with("\n#ifndef METROPIPE_WEATHERAPI_H\n#define METROPIPE_WEATHERAPI_H\n"));
    assert!(content.contains("#define METRO_SHM_PATH \"/dev/shm/metro_WeatherApi\""));
    let (name, content) = generate_python_stub("weather");
    assert_eq!(name, "metropipe_weather.py");
    assert!(content.contains("class WeatherClient:\n"));
    let (name, content) = generate_js_stub("weather");
    assert_eq!(name, "metropipe_weather.js");
    assert!(content.contains("module.exports = { WeatherClient };"));
    let (name, content) = generate_rust_stub("weather");
    assert_eq!(name, "metropipe_weather.rs");
    assert!(content.contains("pub struct WeatherChannel {"));
    let (name, content) = generate_go_stub("weather");
    assert_eq!(name, "metropipe_weather.go");
    assert!(content.starts_with("\npackage weather\n"));
    assert!(content.contains("import (\n    \"encoding/binary\"\n    \"fmt\"\n    \"os\"\n    \"syscall\"\n    \"time\"\n)\n"));
    let (name, content) = generate_java_stub("weather");
    assert_eq!(name, "WeatherChannel.java");
    assert!(content.contains("public class WeatherChannel {"));
    let (name, _) = generate_csharp_stub("weather");
    assert_eq!(name, "WeatherChannel.cs");
    let (name, content) = generate_ruby_stub("7up");
    assert_eq!(name, "metropipe_7up.rb");
    assert!(content.contains("class 7upClient"));
    let (name, content) = generate_bash_stub("weather");
    assert_eq!(name, "metropipe_weather.sh");
    assert!(content.contains("METROPIPE_SERVICE=\"weather\""));
    assert_eq!(
        service_definition("mylib"),
        "SERVICE mylib {\n  INPUT request: Data;\n  OUTPUT response: Data;\n}\n"
    );
}

#[test]
fn bind_reads_the_header() {
    let header = "#ifndef MYLIB_H\n#define MYLIB_H\n/* add(x); */\nint add(int a, int b);\n  const char *greet(const char *name);  \ntypedef int (*cb)(int);\nvoid reset(void);\nstruct point { int x; };\n#endif\n";
    let sigs = header_functions(header);
    assert_eq!(sigs.len(), 3);
    assert_eq!(sigs[0].name, "add");
    assert_eq!(sigs[0].params, vec![("a".to_string(), "int".to_string()), ("b".to_string(), "int".to_string())]);
    assert_eq!(sigs[0].return_types, vec![("return".to_string(), "int".to_string())]);
    assert_eq!(sigs[1].name, "greet");
    assert_eq!(sigs[1].params, vec![("*name".to_string(), "const char".to_string())]);
    assert_eq!(sigs[1].return_types, vec![("return".to_string(), "const char *".to_string())]);
    assert_eq!(sigs[2].name, "reset");
    assert!(sigs[2].params.is_empty());
    assert!(sigs.iter().all(|s| s.source_lang == "c"));
    let text = bind_definition("include/mylib.h", header);
    assert!(text.starts_with("SERVICE mylib {\n  INPUT request: Data;\n  OUTPUT response: Data;\n}\n"));
    assert!(text.contains("SERVICE add {\n  INPUT a: int;\n  INPUT b: int;\n  OUTPUT result: int;\n}\n"));
    assert!(text.ends_with("SERVICE reset {\n}\n"));
    assert_eq!(service_name_of("mylib.h"), "mylib");
    assert_eq!(service_name_of("lib/archive.tar.gz"), "archive.tar");
    assert!(header_functions("").is_empty());
    assert_eq!(bind_definition("mylib.h", ""), service_definition("mylib"));
}

#[test]
fn go_stub_exports_a_camel_case_function() {
    let s = sig(&[("image_path", "str"), ("top_k", "int")], &[("result", "Tuple[str, float]")], "python");
    let (name, content) = generate_target_stub("go", &s, "classify").unwrap();
    assert_eq!(name, "stub.go");
    assert!(content.starts_with("\npackage metropipe\n"));
    assert!(content.contains("func Classify(imagePath string, topK int) (string, float64, error) {\n"));
    assert!(content.contains("\tvar r0 string\n\tvar r1 float64\n"));
    assert!(content.contains(
        "\terr := metropipeCall_classify(map[string]interface{}{\"image_path\": imagePath, \"top_k\": topK}, &r0, &r1)\n\treturn r0, r1, err\n}\n"
    ));
    assert!(content.contains("func metropipeCall_classify(args map[string]interface{}, outs ...interface{}) error {\n"));
    assert!(content.contains("filepath.Join(dir, \"metro_classify\")"));
}

#[test]
fn go_stub_results_and_names() {
    let s = sig(&[("max__value_", "Float"), ("on", "bool"), ("blob", "bytes")], &[("result", "int"), ("result", "error")], "go");
    let (_, content) = generate_target_stub("go", &s, "Sum").unwrap();
    assert!(content.contains("func Sum(maxValue float64, on bool, blob []byte) (int, []byte, error) {\n"));
    assert!(content.contains("{\"max__value_\": maxValue, \"on\": on, \"blob\": blob}, &r0, &r1)\n\treturn r0, r1, err\n"));
    let s = sig(&[], &[], "c");
    let (_, content) = generate_target_stub("go", &s, "reset").unwrap();
    assert!(content.contains("func Reset() (error) {\n\terr := metropipeCall_reset(map[string]interface{}{}, )\n\treturn err\n}\n"));
    let s = sig(&[("x", "int")], &[("return", "Data")], "python");
    let (_, content) = generate_target_stub("go", &s, "_f").unwrap();
    assert!(content.contains("func _f(x int) ([]byte, error) {\n\tvar r0 []byte\n"));
}

#[test]
fn providers_in_javascript_and_ruby() {
    let s = sig(&[("a", "Data"), ("b", "Data")], &[("return", "Data")], "js");
    let p = generate_provider(&s, "lib/services.js");
    assert!(p.contains("const mod = require(path.resolve(\"services\"));\n"));
    assert!(p.contains("const SHM_PATH = path.join(SHM_DIR, \"metro_classify\");\n"));
    assert!(p.contains("    const result = mod.classify(reqData[\"a\"], reqData[\"b\"]);\n"));
    assert!(p.contains("JSON.stringify({ result: result })"));
    assert!(p.contains("    init.writeUInt32LE(4096, 12);\n"));
    let s = sig(&[("name", "Data")], &[("return", "Data")], "ruby");
    let p = generate_provider(&s, "greeter.rb");
    assert!(p.contains("require File.expand_path(\"greeter\")\n"));
    assert!(p.contains("    result = classify(req_data[\"name\"])\n"));
    assert!(p.contains("File.binwrite(SHM_PATH, (\"\\0\" * 12) + [4096].pack(\"V\") + (\"\\0\" * (16 + 4096)))"));
    let s = sig(&[], &[], "js");
    assert!(generate_provider(&s, "x.js").contains("mod.classify();"));
    let s = sig(&[("a", "number")], &[("return", "number")], "ts");
    let p = generate_provider(&s, "src/api.ts");
    assert!(p.contains("require(path.resolve(\"api\"))"));
    assert!(p.contains("mod.classify(reqData[\"a\"]);"));
}

#[test]
fn all_clients_in_order() {
    let files = all_client_stubs("weather");
    let names: Vec<&str> = files.iter().map(|f| f.0.as_str()).collect();
    assert_eq!(names, vec![
        "metropipe_weather.h", "metropipe_weather.py", "metropipe_weather.js", "metropipe_weather.rs",
        "metropipe_weather.go", "WeatherChannel.java", "WeatherChannel.cs", "metropipe_weather.rb",
        "metropipe_weather.sh",
    ]);
    assert_eq!(files[4], generate_go_stub("weather"));
}

fn named(name: &str, params: &[(&str, &str)], rets: &[(&str, &str)], lang: &str) -> FunctionSig {
    FunctionSig { name: name.to_string(), ..sig(params, rets, lang) }
}

#[test]
fn rust_and_go_providers() {
    let s = named("add", &[("a", "i32"), ("label", "&str"), ("xs", "&[u8]")], &[("return", "i64")], "rust");
    let p = generate_provider(&s, "src/math.rs");
    assert!(p.contains("// The provider of `add`: build it beside `math.rs`, which defines `pub fn add`.\n"));
    assert!(p.contains("\nmod math;\n"));
    assert!(p.contains("    let path = format!(\"{}/metro_add\", dir);\n"));
    assert!(p.contains("        init[12..16].copy_from_slice(&4096u32.to_le_bytes());\n"));
    assert!(p.contains("            let a: i32 = serde_json::from_value(req[\"a\"].clone()).map_err(|e| e.to_string())?;\n            let label: String = serde_json::from_value(req[\"label\"].clone()).map_err(|e| e.to_string())?;\n            let xs: Vec<u8> = serde_json::from_value(req[\"xs\"].clone())"));
    assert!(p.contains("            let result = math::add(a, &label, &xs);\n"));
    let s = named("Sum", &[("a", "int"), ("b", "Data")], &[("result", "int"), ("result", "error")], "go");
    let p = generate_provider(&s, "calc.go");
    assert!(p.contains("// as in `go run provider.go calc.go`.\npackage main\n"));
    assert!(p.contains("\t\t\tvar a int\n\t\t\t_ = json.Unmarshal(req[\"a\"], &a)\n\t\t\tvar b interface{}\n"));
    assert!(p.contains("\t\t\tr0, r1 := Sum(a, b)\n\t\t\tresult := []interface{}{r0, r1}\n"));
    assert!(p.contains("binary.LittleEndian.PutUint32(init[12:16], 4096)"));
    let s = named("Ping", &[], &[("result", "string")], "go");
    assert!(generate_provider(&s, "p.go").contains("\t\t\tr0 := Ping()\n\t\t\tresult := r0\n"));
}

#[test]
fn c_java_and_csharp_providers() {
    let s = named("greet", &[("*name", "const char"), ("n", "unsigned long"), ("w", "double"), ("on", "bool")], &[("return", "const char *")], "c");
    let p = generate_provider(&s, "lib/greet.c");
    assert!(p.contains("const char * greet(const char *name, unsigned long n, double w, bool on);\n"));
    assert!(p.contains("            char *name = metro_text(metro_field(req, \"*name\"));\n            long long n = strtoll(metro_field(req, \"n\"), NULL, 10);\n            double w = strtod(metro_field(req, \"w\"), NULL);\n            int on = strncmp(metro_field(req, \"on\"), \"true\", 4) == 0;\n"));
    assert!(p.contains("            const char *result = greet(name, n, w, on);\n"));
    assert!(p.contains("pwrite(fd, &cap, 4, 12)"));
    let s = named("reset", &[], &[("return", "void")], "c");
    assert!(generate_provider(&s, "r.c").contains("            reset();\n            int k = snprintf(buf + 32, room, \"{\\\"result\\\": null}\");\n"));
    let s = named("add", &[("a", "int"), ("s", "String"), ("f", "boolean"), ("x", "double")], &[("return", "int")], "java");
    let p = generate_provider(&s, "src/Calc.java");
    assert!(p.contains("public class provider {"));
    assert!(p.contains("                int a = (int) Long.parseLong(number(field(req, \"a\")));\n                String s = text(field(req, \"s\"));\n                boolean f = field(req, \"f\").startsWith(\"true\");\n                double x = (double) Double.parseDouble(number(field(req, \"x\")));\n"));
    assert!(p.contains("                String value = String.valueOf(Calc.add(a, s, f, x));\n"));
    assert!(p.contains("            init[13] = 0x10;\n"));
    let s = named("Greet", &[("name", "string")], &[("return", "string")], "csharp");
    let p = generate_provider(&s, "Greeter.cs");
    assert!(p.contains("                var name = req.RootElement.GetProperty(\"name\").Deserialize<string>();\n                object value = Greeter.Greet(name);\n"));
    assert!(p.contains("BitConverter.GetBytes(4096u).CopyTo(init, 12);"));
}
