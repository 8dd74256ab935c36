use metropipe::cli::{channel_path, parse_command, parse_connect_args, Command};
use metropipe::export::{
    export_plan, language_for_extension, merge_into, parse_export_args, source_language,
    OutputMode,
};
use metropipe::signature::FunctionSig;

fn args(v: &[&str]) -> Vec<String> {
    v.iter().map(|s| s.to_string()).collect()
}

#[test]
fn commands_are_recognized() {
    assert!(matches!(parse_command(&args(&["metropipe"])), Command::NoCommand));
    assert!(matches!(parse_command(&args(&["metropipe", "serve"])), Command::Serve));
    assert!(matches!(parse_command(&args(&["metropipe", "connect"])), Command::MissingService { proxy: false }));
    assert!(matches!(parse_command(&args(&["metropipe", "connect", "Svc"])), Command::Connect));
    assert!(matches!(parse_command(&args(&["metropipe", "proxy"])), Command::MissingService { proxy: true }));
    assert!(matches!(parse_command(&args(&["metropipe", "bind"])), Command::MissingLibrary));
    assert!(matches!(parse_command(&args(&["metropipe", "export"])), Command::MissingFunction));
    assert!(matches!(parse_command(&args(&["metropipe", "export", "f", "a.py"])), Command::Export));
    assert!(matches!(parse_command(&args(&["metropipe", "--help"])), Command::Help));
    match parse_command(&args(&["metropipe", "proxy", "WeatherApi"])) {
        Command::Proxy { service } => assert_eq!(service, "WeatherApi"),
        _ => panic!("expected proxy"),
    }
    match parse_command(&args(&["metropipe", "bind", "mylib.h"])) {
        Command::Bind { lib_name, out_dir } => {
            assert_eq!(lib_name, "mylib.h");
            assert_eq!(out_dir, "lib/ffi/generated/mylib.h");
        }
        _ => panic!("expected bind"),
    }
    match parse_command(&args(&["metropipe", "bind", "mylib.h", "--out", "gen"])) {
        Command::Bind { out_dir, .. } => assert_eq!(out_dir, "gen"),
        _ => panic!("expected bind"),
    }
    match parse_command(&args(&["metropipe", "frobnicate"])) {
        Command::Unknown { command } => assert_eq!(command, "frobnicate"),
        _ => panic!("expected unknown"),
    }
}

#[test]
fn connect_flags() {
    let o = parse_connect_args(&args(&["WeatherApi", "--send", "New York"]));
    assert_eq!(o.service, "WeatherApi");
    assert_eq!(o.send, Some("New York".to_string()));
    assert!(!o.listen && !o.gen_stubs);
    let o = parse_connect_args(&args(&["Svc", "--listen", "--gen-stubs", "--send"]));
    assert!(o.listen && o.gen_stubs);
    assert_eq!(o.stubs_dir, "metropipe_Svc_stubs");
    assert_eq!(o.send, None);
    let o = parse_connect_args(&args(&["Svc", "--gen-stubs", "out/dir"]));
    assert_eq!(o.stubs_dir, "out/dir");
}

#[test]
fn channel_paths_follow_the_environment() {
    assert_eq!(channel_path("classify", None, true, true), "/dev/shm/metro_classify");
    assert_eq!(channel_path("classify", None, false, true), "/tmp/metro_classify");
    assert_eq!(channel_path("classify", None, false, false), "./.metropipe/metro_classify");
    assert_eq!(channel_path("classify", Some("/run/x"), true, true), "/run/x/metro_classify");
}

#[test]
fn export_flags() {
    let o = parse_export_args(&args(&["classify", "services.py", "--target", "rust", "go", "--out", "api", "--flat"]));
    assert_eq!(o.func_name, "classify");
    assert_eq!(o.source_path, Some("services.py".to_string()));
    assert_eq!(o.targets, args(&["rust", "go"]));
    assert_eq!(o.out_dir, "api");
    assert_eq!(o.mode, OutputMode::Flat);
    let o = parse_export_args(&args(&["classify", "services.py", "--unify", "--target"]));
    assert_eq!(o.targets, args(&["c", "python", "js", "rust", "go", "java", "csharp", "ruby", "bash"]));
    assert_eq!(o.out_dir, "metropipe");
    assert_eq!(o.mode, OutputMode::Unify);
    let o = parse_export_args(&args(&["Classifier"]));
    assert_eq!(o.source_path, None);
    assert_eq!(o.mode, OutputMode::Namespace);
}

#[test]
fn source_language_from_extension() {
    assert_eq!(source_language("services.py"), "python");
    assert_eq!(source_language("dir/Lib.RS"), "rust");
    assert_eq!(source_language("mylib.h"), "c");
    assert_eq!(source_language("app.mjs"), "js");
    assert_eq!(source_language("Main.java"), "java");
    assert_eq!(source_language("x.cs"), "csharp");
    assert_eq!(source_language("notes.xyz"), "unknown");
    assert_eq!(source_language("Makefile"), "unknown");
    assert_eq!(language_for_extension("rb"), "ruby");
    assert_eq!(language_for_extension("ts"), "ts");
}

fn python_sig() -> FunctionSig {
    FunctionSig {
        name: "classify".to_string(),
        params: vec![("x".to_string(), "int".to_string())],
        return_types: vec![("return".to_string(), "str".to_string())],
        source_lang: "python".to_string(),
    }
}

#[test]
fn export_plan_per_mode() {
    let sig = python_sig();
    let o = parse_export_args(&args(&["classify", "svc.py", "--target", "rust", "c-linker"]));
    let plan = export_plan(&o, &sig);
    let paths: Vec<Vec<String>> = plan.iter().map(|a| a.path.clone()).collect();
    assert_eq!(paths, vec![
        args(&["classify", "stub.rs"]),
        args(&["classify", "classify.h"]),
        args(&["classify", "classify.c"]),
        args(&["classify", "Makefile"]),
        args(&["classify", "provider.py"]),
    ]);
    assert!(plan.iter().all(|a| !a.append));
    assert!(plan[4].content.contains("import_module(\"svc\")"));
    let o = parse_export_args(&args(&["classify", "svc.py", "--target", "python", "--flat"]));
    let plan = export_plan(&o, &sig);
    assert_eq!(plan.len(), 2);
    assert_eq!(plan[0].path, args(&["classify.py"]));
    assert_eq!(plan[1].path, args(&["provider.py"]));
    let o = parse_export_args(&args(&["classify", "services.py", "--target", "rust", "--flat"]));
    let plan = export_plan(&o, &sig);
    assert_eq!(plan[0].path, args(&["classify.rs"]));
    let js = FunctionSig { source_lang: "js".to_string(), ..python_sig() };
    let o = parse_export_args(&args(&["classify", "lib.js", "--target", "go"]));
    let plan = export_plan(&o, &js);
    assert_eq!(plan[0].path, args(&["classify", "stub.go"]));
    assert_eq!(plan[1].path, args(&["classify", "provider.js"]));
    assert!(plan[1].content.contains("require(path.resolve(\"lib\"))"));
    let rb = FunctionSig { source_lang: "ruby".to_string(), ..python_sig() };
    let o = parse_export_args(&args(&["classify", "lib.rb", "--unify"]));
    let plan = export_plan(&o, &rb);
    assert_eq!(plan.last().unwrap().path, args(&["metropipe_provider.rb"]));
    let rs = FunctionSig { source_lang: "rust".to_string(), ..python_sig() };
    let o = parse_export_args(&args(&["classify", "lib.rs", "--target", "go", "--flat"]));
    let plan = export_plan(&o, &rs);
    assert_eq!(plan[1].path, args(&["provider.rs"]));
    assert!(plan[1].content.contains("mod lib;"));
    let o = parse_export_args(&args(&["classify", "svc.py", "--target", "go", "c-linker", "--unify"]));
    let plan = export_plan(&o, &sig);
    assert_eq!(plan.len(), 3);
    assert_eq!(plan[0].path, args(&["metropipe.go"]));
    assert_eq!(plan[1].path, args(&["metropipe.h"]));
    assert_eq!(plan[2].path, args(&["metropipe_provider.py"]));
    assert!(plan.iter().all(|a| a.append));
    assert_eq!(merge_into("old", "new"), "old\nnew");
    assert_eq!(merge_into("", "new"), "\nnew");
}
