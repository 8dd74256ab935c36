//! Text templates of the stubs and the provider script that `export` writes.
//!
//! Each template is the list of text pieces that stand around its placeholders.
use vstd::prelude::*;

verus! {

/// One entry of the JSON object that the Python stub sends: the parameter's
/// name as the key, its value as the value.
pub const PY_JSON_ENTRY: [&'static str; 3] = [
    "\"",
    "\": ",
    ", ",
];

/// The Python stub: it sends the arguments as a JSON object keyed by the
/// parameters' names, and returns the `result` of the JSON reply.
/// Placeholders, in order: func_name, func_name, params, json_entries.
pub const PYTHON_STUB: [&'static str; 5] = [
    "\nimport struct, time, os, json\nSHM_DIR = os.environ.get(\"METROPIPE_DIR\", \"/dev/shm\")\nSHM_PATH = os.path.join(SHM_DIR, \"metro_",
    "\")\n\nSTATUS_IDLE = 0\nSTATUS_CONSUMER_REQ = 1\nSTATUS_PROVIDER_RES = 3\n\ndef ",
    "(",
    "):\n    fd = open(SHM_PATH, \"r+b\") if os.path.exists(SHM_PATH) else open(SHM_PATH, \"w+b\")\n    mm = __import__(\"mmap\").mmap(fd.fileno(), 0)\n    while struct.unpack_from(\"<I\", mm, 0)[0] != STATUS_IDLE:\n        time.sleep(0.001)\n    data = json.dumps({",
    "}).encode()\n    mm[32:32+len(data)] = data\n    struct.pack_into(\"<I\", mm, 8, len(data))\n    struct.pack_into(\"<I\", mm, 0, STATUS_CONSUMER_REQ)\n    while True:\n        s = struct.unpack_from(\"<I\", mm, 0)[0]\n        if s == STATUS_PROVIDER_RES:\n            size = struct.unpack_from(\"<I\", mm, 8)[0]\n            resp = json.loads(bytes(mm[32:32+size]).decode())\n            struct.pack_into(\"<I\", mm, 0, STATUS_IDLE)\n            mm.close()\n            return resp[\"result\"]\n        time.sleep(0.001)\n",
];

/// The C function-pointer registry header.
/// Placeholders, in order: func_name, ret_c, func_name, c_decl, func_name, func_name, func_name, func_name, func_name.
pub const C_DIRECT_STUB: [&'static str; 10] = [
    "\n/* Metropipe direct function pointer registry for ",
    "\n * Zero-copy, in-process, no compilation needed.\n * Provider calls metropipe_register(), consumer calls metropipe_get_registry(). */\n\ntypedef ",
    " (*",
    "_fn)(",
    ");\n\ntypedef struct {\n    ",
    "_fn ",
    ";\n} MetropipeRegistry;\n\nstatic MetropipeRegistry registry = {0};\n\nvoid metropipe_register(MetropipeRegistry *reg) {\n    if (reg->",
    ") registry.",
    " = reg->",
    ";\n}\n\nMetropipeRegistry* metropipe_get_registry(void) {\n    return &registry;\n}\n",
];

/// The C header for direct linking.
/// Placeholders, in order: func_name, func_name, func_name, upper, upper, ret_c, func_name, c_decl.
pub const C_LINKER_HEADER: [&'static str; 9] = [
    "\n/* Compiled C stub for ",
    "\n * Compile: cc -shared -o lib",
    ".so ",
    ".c */\n\n#ifndef METROPIPE_",
    "_H\n#define METROPIPE_",
    "_H\n\n",
    " ",
    "(",
    ");\n\n#endif\n",
];

/// The Python provider script.
/// Placeholders, in order: source_stem, func_name, func_name, func_name, func_name, args_unpack, func_name, args_call.
pub const PYTHON_PROVIDER: [&'static str; 9] = [
    "\nimport struct, time, os, json, importlib\n\nmod = importlib.import_module(\"",
    "\")\n",
    " = getattr(mod, \"",
    "\")\n\nSHM_DIR = os.environ.get(\"METROPIPE_DIR\", \"/dev/shm\")\nSHM_PATH = os.path.join(SHM_DIR, \"metro_",
    "\")\nif not os.path.exists(SHM_PATH):\n    os.makedirs(os.path.dirname(SHM_PATH), exist_ok=True)\n    with open(SHM_PATH, \"wb\") as f:\n        f.truncate(32 + 4096)\n        f.seek(12)\n        f.write(struct.pack(\"<I\", 4096))\n\nfd = open(SHM_PATH, \"r+b\")\nmm = __import__(\"mmap\").mmap(fd.fileno(), 0)\n\nSTATUS_IDLE = 0\nSTATUS_CONSUMER_REQ = 1\nSTATUS_PROVIDER_RES = 3\n\nprint(\"metropipe provider: ",
    " listening on\", SHM_PATH)\nwhile True:\n    if struct.unpack_from(\"<I\", mm, 0)[0] == STATUS_CONSUMER_REQ:\n        sz = struct.unpack_from(\"<I\", mm, 8)[0]\n        req_data = json.loads(bytes(mm[32:32+sz]).decode())\n",
    "\n        result = ",
    "(",
    ")\n        resp = json.dumps({\"result\": result}).encode()\n        mm[32:32+len(resp)] = resp\n        struct.pack_into(\"<I\", mm, 8, len(resp))\n        struct.pack_into(\"<I\", mm, 0, STATUS_PROVIDER_RES)\n    time.sleep(0.001)\n",
];

/// The C source written beside the direct-linking header.
/// Placeholders, in order: func_name, func_name, func_name.
pub const C_LINKER_SOURCE: [&'static str; 4] = [
    "#include \"",
    ".h\"\n/* Compiled C stub for ",
    " — compiles to a .so for direct linking.\n * Makefile generates: lib",
    ".so */\n",
];

/// The Makefile written beside the direct-linking header.
/// Placeholders, in order: func_name, func_name, func_name.
pub const C_LINKER_MAKEFILE: [&'static str; 4] = [
    "all:\n\tcc -shared -o lib",
    ".so ",
    ".c -lrt\nclean:\n\trm -f lib",
    ".so\n",
];

/// The Go stub: an exported function with the parameters in camel case and
/// the results followed by an `error`, which sends the arguments as a JSON
/// object keyed by the parameters' names and decodes the JSON reply.
/// Placeholders, in order: Name, params, results, result_vars, func_name,
/// json_entries, result_refs, returns, func_name, func_name.
pub const GO_STUB: [&'static str; 11] = [
    "\npackage metropipe\n\nimport (\n\t\"encoding/binary\"\n\t\"encoding/json\"\n\t\"errors\"\n\t\"os\"\n\t\"path/filepath\"\n\t\"syscall\"\n\t\"time\"\n)\n\nfunc ",
    "(",
    ") ",
    " {\n",
    "\terr := metropipeCall_",
    "(map[string]interface{}{",
    "}, ",
    ")\n\treturn ",
    "\n}\n\nfunc metropipeCall_",
    "(args map[string]interface{}, outs ...interface{}) error {\n\tdir := os.Getenv(\"METROPIPE_DIR\")\n\tif dir == \"\" {\n\t\tdir = \"/dev/shm\"\n\t}\n\tf, err := os.OpenFile(filepath.Join(dir, \"metro_",
    "\"), os.O_RDWR, 0)\n\tif err != nil {\n\t\treturn err\n\t}\n\tdefer f.Close()\n\tinfo, err := f.Stat()\n\tif err != nil {\n\t\treturn err\n\t}\n\tbuf, err := syscall.Mmap(int(f.Fd()), 0, int(info.Size()), syscall.PROT_READ|syscall.PROT_WRITE, syscall.MAP_SHARED)\n\tif err != nil {\n\t\treturn err\n\t}\n\tdefer syscall.Munmap(buf)\n\treq, err := json.Marshal(args)\n\tif err != nil {\n\t\treturn err\n\t}\n\tif len(buf) < 32 || 32+len(req) > len(buf) {\n\t\treturn errors.New(\"request does not fit the channel\")\n\t}\n\tstart := time.Now()\n\tfor binary.LittleEndian.Uint32(buf[0:4]) != 0 {\n\t\tif time.Since(start) > 5*time.Second {\n\t\t\treturn errors.New(\"timeout\")\n\t\t}\n\t\ttime.Sleep(time.Millisecond)\n\t}\n\tcopy(buf[32:], req)\n\tbinary.LittleEndian.PutUint32(buf[8:12], uint32(len(req)))\n\tbinary.LittleEndian.PutUint32(buf[0:4], 1)\n\tstart = time.Now()\n\tfor binary.LittleEndian.Uint32(buf[0:4]) != 3 {\n\t\tif time.Since(start) > 5*time.Second {\n\t\t\treturn errors.New(\"timeout\")\n\t\t}\n\t\ttime.Sleep(time.Millisecond)\n\t}\n\tsize := int(binary.LittleEndian.Uint32(buf[8:12]))\n\tif 32+size > len(buf) {\n\t\tbinary.LittleEndian.PutUint32(buf[0:4], 0)\n\t\treturn errors.New(\"response does not fit the channel\")\n\t}\n\tvar reply struct {\n\t\tResult json.RawMessage `json:\"result\"`\n\t}\n\terr = json.Unmarshal(buf[32:32+size], &reply)\n\tbinary.LittleEndian.PutUint32(buf[0:4], 0)\n\tif err != nil {\n\t\treturn err\n\t}\n\tif len(outs) == 1 {\n\t\treturn json.Unmarshal(reply.Result, outs[0])\n\t}\n\tvar parts []json.RawMessage\n\tif len(outs) > 1 {\n\t\tif err := json.Unmarshal(reply.Result, &parts); err != nil {\n\t\t\treturn err\n\t\t}\n\t}\n\tfor i := range outs {\n\t\tif i < len(parts) {\n\t\t\tif err := json.Unmarshal(parts[i], outs[i]); err != nil {\n\t\t\t\treturn err\n\t\t\t}\n\t\t}\n\t}\n\treturn nil\n}\n",
];

/// The JavaScript provider: it requires the source module and answers each
/// request with the function's result.
/// Placeholders, in order: module, func_name, func_name, func_name, args.
pub const JS_PROVIDER: [&'static str; 6] = [
    "\nconst fs = require(\"fs\");\nconst path = require(\"path\");\n\nconst mod = require(path.resolve(\"",
    "\"));\n\nconst SHM_DIR = process.env.METROPIPE_DIR || \"/dev/shm\";\nconst SHM_PATH = path.join(SHM_DIR, \"metro_",
    "\");\nif (!fs.existsSync(SHM_PATH)) {\n    fs.mkdirSync(SHM_DIR, { recursive: true });\n    const init = Buffer.alloc(32 + 4096);\n    init.writeUInt32LE(4096, 12);\n    fs.writeFileSync(SHM_PATH, init);\n}\nconst fd = fs.openSync(SHM_PATH, \"r+\");\n\nconst STATUS_CONSUMER_REQ = 1;\nconst STATUS_PROVIDER_RES = 3;\n\nfunction readWord(offset) {\n    const b = Buffer.alloc(4);\n    fs.readSync(fd, b, 0, 4, offset);\n    return b.readUInt32LE(0);\n}\n\nfunction writeWord(offset, value) {\n    const b = Buffer.alloc(4);\n    b.writeUInt32LE(value, 0);\n    fs.writeSync(fd, b, 0, 4, offset);\n}\n\nconsole.log(\"metropipe provider: ",
    " listening on\", SHM_PATH);\nsetInterval(() => {\n    if (readWord(0) !== STATUS_CONSUMER_REQ) {\n        return;\n    }\n    const sz = readWord(8);\n    const body = Buffer.alloc(sz);\n    fs.readSync(fd, body, 0, sz, 32);\n    const reqData = JSON.parse(body.toString());\n    const result = mod.",
    "(",
    ");\n    const resp = Buffer.from(JSON.stringify({ result: result }));\n    fs.writeSync(fd, resp, 0, resp.length, 32);\n    writeWord(8, resp.length);\n    writeWord(0, STATUS_PROVIDER_RES);\n}, 1);\n",
];

/// The Ruby provider: it loads the source file and answers each request with
/// the method's result.
/// Placeholders, in order: module, func_name, func_name, func_name, args.
pub const RUBY_PROVIDER: [&'static str; 6] = [
    "\nrequire \"json\"\nrequire File.expand_path(\"",
    "\")\n\nSHM_DIR = ENV.fetch(\"METROPIPE_DIR\", \"/dev/shm\")\nSHM_PATH = File.join(SHM_DIR, \"metro_",
    "\")\nunless File.exist?(SHM_PATH)\n  Dir.mkdir(SHM_DIR) unless Dir.exist?(SHM_DIR)\n  File.binwrite(SHM_PATH, (\"\\0\" * 12) + [4096].pack(\"V\") + (\"\\0\" * (16 + 4096)))\nend\nf = File.open(SHM_PATH, \"r+b\")\n\nSTATUS_CONSUMER_REQ = 1\nSTATUS_PROVIDER_RES = 3\n\nputs \"metropipe provider: ",
    " listening on #{SHM_PATH}\"\nloop do\n  f.seek(0)\n  if f.read(4).unpack1(\"V\") == STATUS_CONSUMER_REQ\n    f.seek(8)\n    sz = f.read(4).unpack1(\"V\")\n    f.seek(32)\n    req_data = JSON.parse(f.read(sz))\n    result = ",
    "(",
    ")\n    resp = JSON.generate({ \"result\" => result })\n    f.seek(32)\n    f.write(resp)\n    f.seek(8)\n    f.write([resp.bytesize].pack(\"V\"))\n    f.seek(0)\n    f.write([STATUS_PROVIDER_RES].pack(\"V\"))\n    f.flush\n  end\n  sleep 0.001\nend\n",
];


/// One argument of the JSON object that the Rust stub sends.
/// Placeholders, in order: name, name.
pub const RUST_JSON_ARG: [&'static str; 3] = [
    "    args.insert(\"",
    "\".to_string(), serde_json::to_value(&",
    ").map_err(|e| e.to_string())?);\n",
];

/// The Rust stub: it sends the arguments as a JSON object keyed by the
/// parameters' names and decodes the `result` of the JSON reply.
/// Placeholders, in order: func_name, params, ret, json_args, func_name.
pub const RUST_STUB: [&'static str; 6] = [
    "\nuse std::fs::OpenOptions;\nuse std::os::unix::io::AsRawFd;\n\nconst STATUS_IDLE: u32 = 0;\nconst STATUS_CONSUMER_REQ: u32 = 1;\nconst STATUS_PROVIDER_RES: u32 = 3;\n\npub fn ",
    "(",
    ") -> Result<",
    ", String> {\n    let mut args = serde_json::Map::new();\n",
    "    let req = serde_json::to_vec(&serde_json::Value::Object(args)).map_err(|e| e.to_string())?;\n    let shm = std::env::var(\"METROPIPE_DIR\").unwrap_or_else(|_| \"/dev/shm\".into());\n    let path = format!(\"{}/metro_",
    "\", shm);\n    let fd = OpenOptions::new().read(true).write(true).open(&path).map_err(|e| format!(\"open: {}\", e))?;\n    let len = std::fs::metadata(&path).map_err(|e| e.to_string())?.len() as usize;\n    if len < 32 + req.len() { return Err(\"request does not fit the channel\".into()); }\n    let ptr = unsafe { libc::mmap(std::ptr::null_mut(), len, libc::PROT_READ|libc::PROT_WRITE, libc::MAP_SHARED, fd.as_raw_fd(), 0) };\n    if ptr == libc::MAP_FAILED { return Err(\"mmap\".into()); }\n    let buf = unsafe { std::slice::from_raw_parts_mut(ptr as *mut u8, len) };\n\n    let start = std::time::Instant::now();\n    while u32::from_le_bytes(buf[0..4].try_into().unwrap()) != STATUS_IDLE {\n        if start.elapsed().as_millis() > 5000 {\n            let _ = unsafe { libc::munmap(ptr, len) };\n            return Err(\"timeout\".into());\n        }\n    }\n    buf[32..32 + req.len()].copy_from_slice(&req);\n    buf[8..12].copy_from_slice(&(req.len() as u32).to_le_bytes());\n    buf[0..4].copy_from_slice(&STATUS_CONSUMER_REQ.to_le_bytes());\n\n    let rs = std::time::Instant::now();\n    loop {\n        let s = u32::from_le_bytes(buf[0..4].try_into().unwrap());\n        if s == STATUS_PROVIDER_RES {\n            let size = (u32::from_le_bytes(buf[8..12].try_into().unwrap()) as usize).min(len - 32);\n            let reply: Result<serde_json::Value, String> = serde_json::from_slice(&buf[32..32 + size]).map_err(|e| e.to_string());\n            buf[0..4].copy_from_slice(&STATUS_IDLE.to_le_bytes());\n            let _ = unsafe { libc::munmap(ptr, len) };\n            let mut reply = reply?;\n            return serde_json::from_value(reply[\"result\"].take()).map_err(|e| e.to_string());\n        }\n        if rs.elapsed().as_millis() > 5000 {\n            let _ = unsafe { libc::munmap(ptr, len) };\n            return Err(\"timeout\".into());\n        }\n    }\n}\n",
];

/// One text argument of the JSON object that the C stub sends.
/// Placeholders, in order: name, name.
pub const C_JSON_TEXT: [&'static str; 3] = [
    "    METRO_PUT(\"%s\\\"",
    "\\\": \\\"%s\\\"\", sep, (const char *)",
    "); sep = \", \";\n",
];

/// One boolean argument of the JSON object that the C stub sends.
/// Placeholders, in order: name, name.
pub const C_JSON_FLAG: [&'static str; 3] = [
    "    METRO_PUT(\"%s\\\"",
    "\\\": %s\", sep, ",
    " ? \"true\" : \"false\"); sep = \", \";\n",
];

/// One floating-point argument of the JSON object that the C stub sends.
/// Placeholders, in order: name, name.
pub const C_JSON_REAL: [&'static str; 3] = [
    "    METRO_PUT(\"%s\\\"",
    "\\\": %.17g\", sep, (double)",
    "); sep = \", \";\n",
];

/// One integer argument of the JSON object that the C stub sends.
/// Placeholders, in order: name, name.
pub const C_JSON_WHOLE: [&'static str; 3] = [
    "    METRO_PUT(\"%s\\\"",
    "\\\": %lld\", sep, (long long)",
    "); sep = \", \";\n",
];

/// The C stub: it sends the arguments as a JSON object keyed by the
/// parameters' names and reads the `result` of the JSON reply.
/// Placeholders, in order: ret_c, func_name, c_decl, func_name, func_name,
/// json_args, result_read.
pub const C_STUB: [&'static str; 8] = [
    "\n#include <stdint.h>\n#include <stdio.h>\n#include <stdlib.h>\n#include <string.h>\n#include <unistd.h>\n#include <fcntl.h>\n#include <sys/mman.h>\n#include <sys/stat.h>\n\n#define STATUS_IDLE 0\n#define STATUS_CONSUMER_REQ 1\n#define STATUS_PROVIDER_RES 3\n\n",
    " ",
    "(",
    ") {\n    char path[256];\n    const char *d = getenv(\"METROPIPE_DIR\");\n    if (d) snprintf(path, sizeof(path), \"%s/metro_",
    "\", d);\n    else snprintf(path, sizeof(path), \"/dev/shm/metro_",
    "\");\n    char req[4096];\n    size_t n = 0;\n    const char *sep = \"\";\n#define METRO_PUT(...) do { if (n < sizeof(req)) { int k = snprintf(req + n, sizeof(req) - n, __VA_ARGS__); if (k > 0) n += (size_t)k; } } while (0)\n    METRO_PUT(\"{\");\n",
    "    METRO_PUT(\"}\");\n#undef METRO_PUT\n    if (n >= sizeof(req)) return 0;\n    int fd = open(path, O_RDWR);\n    if (fd < 0) return 0;\n    struct stat st;\n    if (fstat(fd, &st) < 0 || st.st_size < 32 + (off_t)n) { close(fd); return 0; }\n    char *buf = mmap(NULL, st.st_size, PROT_READ|PROT_WRITE, MAP_SHARED, fd, 0);\n    if (buf == MAP_FAILED) { close(fd); return 0; }\n\n    volatile uint32_t *status = (volatile uint32_t*)buf;\n    volatile uint32_t *size = (volatile uint32_t*)(buf + 8);\n    while (*status != STATUS_IDLE);\n    memcpy(buf + 32, req, n);\n    *size = (uint32_t)n;\n    *status = STATUS_CONSUMER_REQ;\n    while (*status != STATUS_PROVIDER_RES);\n\n    size_t rsize = *size;\n    if (rsize > (size_t)st.st_size - 32) rsize = (size_t)st.st_size - 32;\n    char *reply = malloc(rsize + 1);\n    if (reply) { memcpy(reply, buf + 32, rsize); reply[rsize] = 0; }\n    *status = STATUS_IDLE;\n    munmap(buf, st.st_size); close(fd);\n    if (!reply) return 0;\n    const char *value = strstr(reply, \"\\\"result\\\"\");\n    value = value ? strchr(value, ':') : NULL;\n    value = value ? value + 1 : \"\";\n    while (*value == ' ') value++;\n",
    "}\n",
];

/// How the C stub reads a text result: a copy of the JSON string.
pub const C_RESULT_TEXT: [&'static str; 1] = [
    "    char *text = NULL;\n    if (*value == '\"') {\n        const char *end = strchr(value + 1, '\"');\n        size_t k = end ? (size_t)(end - value - 1) : strlen(value + 1);\n        text = malloc(k + 1);\n        if (text) { memcpy(text, value + 1, k); text[k] = 0; }\n    }\n    free(reply);\n    return text;\n",
];

/// How the C stub reads a one-byte result: `true` is 1, else the number.
pub const C_RESULT_BYTE: [&'static str; 1] = [
    "    uint8_t v = strncmp(value, \"true\", 4) == 0 ? 1 : (uint8_t)strtoll(value, NULL, 10);\n    free(reply);\n    return v;\n",
];

/// How the C stub reads a floating-point result.
/// Placeholders, in order: ret_c.
pub const C_RESULT_REAL: [&'static str; 2] = [
    "    double v = strtod(value, NULL);\n    free(reply);\n    return (",
    ")v;\n",
];

/// How the C stub reads an integer result.
/// Placeholders, in order: ret_c.
pub const C_RESULT_WHOLE: [&'static str; 2] = [
    "    long long v = strtoll(value, NULL, 10);\n    free(reply);\n    return (",
    ")v;\n",
];

/// How the C stub reads any other result: the whole JSON reply, which the caller frees.
/// Placeholders, in order: ret_c.
pub const C_RESULT_RAW: [&'static str; 2] = [
    "    return (",
    ")reply;\n",
];


/// The Rust provider: a program built beside the source module, which it
/// declares as a module and whose function it calls for each request.
/// Placeholders, in order: name, mod, name, mod, name, name, args, result.
pub const RUST_PROVIDER: [&'static str; 9] = [
    "\n// The provider of `",
    "`: build it beside `",
    ".rs`, which defines `pub fn ",
    "`.\nuse std::fs::OpenOptions;\nuse std::os::unix::io::AsRawFd;\n\nmod ",
    ";\n\nfn main() -> Result<(), String> {\n    let dir = std::env::var(\"METROPIPE_DIR\").unwrap_or_else(|_| \"/dev/shm\".into());\n    let path = format!(\"{}/metro_",
    "\", dir);\n    if std::fs::metadata(&path).is_err() {\n        std::fs::create_dir_all(&dir).map_err(|e| e.to_string())?;\n        let mut init = vec![0u8; 32 + 4096];\n        init[12..16].copy_from_slice(&4096u32.to_le_bytes());\n        std::fs::write(&path, &init).map_err(|e| e.to_string())?;\n    }\n    let fd = OpenOptions::new().read(true).write(true).open(&path).map_err(|e| e.to_string())?;\n    let len = std::fs::metadata(&path).map_err(|e| e.to_string())?.len() as usize;\n    if len < 32 { return Err(\"channel too small\".into()); }\n    let ptr = unsafe { libc::mmap(std::ptr::null_mut(), len, libc::PROT_READ | libc::PROT_WRITE, libc::MAP_SHARED, fd.as_raw_fd(), 0) };\n    if ptr == libc::MAP_FAILED { return Err(\"mmap\".into()); }\n    let buf = unsafe { std::slice::from_raw_parts_mut(ptr as *mut u8, len) };\n    println!(\"metropipe provider: ",
    " listening on {}\", path);\n    loop {\n        if u32::from_le_bytes(buf[0..4].try_into().unwrap()) == 1 {\n            let size = (u32::from_le_bytes(buf[8..12].try_into().unwrap()) as usize).min(len - 32);\n            let req: serde_json::Value = serde_json::from_slice(&buf[32..32 + size]).map_err(|e| e.to_string())?;\n",
    "",
    "            let mut reply = serde_json::Map::new();\n            reply.insert(\"result\".to_string(), serde_json::to_value(&result).map_err(|e| e.to_string())?);\n            let resp = serde_json::to_vec(&serde_json::Value::Object(reply)).map_err(|e| e.to_string())?;\n            let n = resp.len().min(len - 32);\n            buf[32..32 + n].copy_from_slice(&resp[..n]);\n            buf[8..12].copy_from_slice(&(n as u32).to_le_bytes());\n            buf[0..4].copy_from_slice(&3u32.to_le_bytes());\n        }\n        std::thread::sleep(std::time::Duration::from_millis(1));\n    }\n}\n",
];

/// The Go provider: a `main` package run together with the source file,
/// whose function it calls for each request.
/// Placeholders, in order: name, mod, name, mod, name, name, args, result.
pub const GO_PROVIDER: [&'static str; 9] = [
    "\n// The provider of ",
    ": run it together with ",
    ".go, which defines ",
    ",\n// as in `go run provider.go ",
    ".go`.\npackage main\n\nimport (\n\t\"encoding/binary\"\n\t\"encoding/json\"\n\t\"fmt\"\n\t\"os\"\n\t\"path/filepath\"\n\t\"syscall\"\n\t\"time\"\n)\n\nfunc main() {\n\tdir := os.Getenv(\"METROPIPE_DIR\")\n\tif dir == \"\" {\n\t\tdir = \"/dev/shm\"\n\t}\n\tpath := filepath.Join(dir, \"metro_",
    "\")\n\tif _, err := os.Stat(path); err != nil {\n\t\tif err := os.MkdirAll(dir, 0o755); err != nil {\n\t\t\tpanic(err)\n\t\t}\n\t\tinit := make([]byte, 32+4096)\n\t\tbinary.LittleEndian.PutUint32(init[12:16], 4096)\n\t\tif err := os.WriteFile(path, init, 0o644); err != nil {\n\t\t\tpanic(err)\n\t\t}\n\t}\n\tf, err := os.OpenFile(path, os.O_RDWR, 0)\n\tif err != nil {\n\t\tpanic(err)\n\t}\n\tinfo, err := f.Stat()\n\tif err != nil {\n\t\tpanic(err)\n\t}\n\tbuf, err := syscall.Mmap(int(f.Fd()), 0, int(info.Size()), syscall.PROT_READ|syscall.PROT_WRITE, syscall.MAP_SHARED)\n\tif err != nil || len(buf) < 32 {\n\t\tpanic(\"cannot map the channel\")\n\t}\n\tfmt.Println(\"metropipe provider: ",
    " listening on\", path)\n\tfor {\n\t\tif binary.LittleEndian.Uint32(buf[0:4]) == 1 {\n\t\t\tsize := int(binary.LittleEndian.Uint32(buf[8:12]))\n\t\t\tif 32+size > len(buf) {\n\t\t\t\tsize = len(buf) - 32\n\t\t\t}\n\t\t\tvar req map[string]json.RawMessage\n\t\t\t_ = json.Unmarshal(buf[32:32+size], &req)\n",
    "",
    "\t\t\tresp, _ := json.Marshal(map[string]interface{}{\"result\": result})\n\t\t\tn := copy(buf[32:], resp)\n\t\t\tbinary.LittleEndian.PutUint32(buf[8:12], uint32(n))\n\t\t\tbinary.LittleEndian.PutUint32(buf[0:4], 3)\n\t\t}\n\t\ttime.Sleep(time.Millisecond)\n\t}\n}\n",
];

/// The C provider: a program built with the source file, which declares
/// the function and calls it for each request.
/// Placeholders, in order: name, mod, name, mod, ret, name, decls, name, name, args, result.
pub const C_PROVIDER: [&'static str; 12] = [
    "\n/* The provider of ",
    ": build it with ",
    ".c, which defines ",
    ",\n   as in `cc provider.c ",
    ".c`. */\n#include <stdint.h>\n#include <stdio.h>\n#include <stdlib.h>\n#include <string.h>\n#include <unistd.h>\n#include <fcntl.h>\n#include <sys/mman.h>\n#include <sys/stat.h>\n\n",
    " ",
    "(",
    ");\n\nstatic const char *metro_field(const char *req, const char *key) {\n    char pat[256];\n    snprintf(pat, sizeof(pat), \"\\\"%s\\\"\", key);\n    const char *p = strstr(req, pat);\n    if (!p) return \"\";\n    p = strchr(p + strlen(pat), ':');\n    if (!p) return \"\";\n    p++;\n    while (*p == ' ') p++;\n    return p;\n}\n\nstatic char *metro_text(const char *v) {\n    const char *start = *v == '\"' ? v + 1 : v;\n    const char *end = *v == '\"' ? strchr(start, '\"') : NULL;\n    size_t k = end ? (size_t)(end - start) : (*v == '\"' ? strlen(start) : 0);\n    char *t = malloc(k + 1);\n    if (t) { memcpy(t, start, k); t[k] = 0; }\n    return t;\n}\n\nint main(void) {\n    char path[256];\n    const char *d = getenv(\"METROPIPE_DIR\");\n    snprintf(path, sizeof(path), \"%s/metro_",
    "\", d ? d : \"/dev/shm\");\n    int fd = open(path, O_RDWR);\n    if (fd < 0) {\n        fd = open(path, O_RDWR | O_CREAT, 0644);\n        if (fd < 0) { perror(\"open\"); return 1; }\n        uint32_t cap = 4096;\n        if (ftruncate(fd, 32 + 4096) != 0 || pwrite(fd, &cap, 4, 12) != 4) { perror(\"init\"); return 1; }\n    }\n    struct stat st;\n    if (fstat(fd, &st) < 0 || st.st_size < 33) return 1;\n    char *buf = mmap(NULL, st.st_size, PROT_READ | PROT_WRITE, MAP_SHARED, fd, 0);\n    if (buf == MAP_FAILED) { perror(\"mmap\"); return 1; }\n    volatile uint32_t *status = (volatile uint32_t *)buf;\n    volatile uint32_t *size = (volatile uint32_t *)(buf + 8);\n    size_t room = (size_t)st.st_size - 32;\n    printf(\"metropipe provider: ",
    " listening on %s\\n\", path);\n    fflush(stdout);\n    for (;;) {\n        if (*status == 1) {\n            size_t n = *size < room ? *size : room;\n            char *req = malloc(n + 1);\n            if (!req) return 1;\n            memcpy(req, buf + 32, n);\n            req[n] = 0;\n",
    "",
    "            free(req);\n            if (k < 0) k = 0;\n            if ((size_t)k >= room) k = (int)room - 1;\n            *size = (uint32_t)k;\n            *status = 3;\n        }\n        usleep(1000);\n    }\n}\n",
];

/// The Java provider: a class compiled with the source class, whose static
/// method it calls for each request.
/// Placeholders, in order: name, mod, mod, name, mod, name, name, args, result.
pub const JAVA_PROVIDER: [&'static str; 10] = [
    "\n// The provider of ",
    ": compile it with ",
    ".java, whose class ",
    " defines\n// the static method ",
    ", as in `javac provider.java ",
    ".java && java provider`.\nimport java.io.RandomAccessFile;\nimport java.nio.ByteOrder;\nimport java.nio.MappedByteBuffer;\nimport java.nio.channels.FileChannel;\nimport java.nio.charset.StandardCharsets;\nimport java.nio.file.Files;\nimport java.nio.file.Path;\nimport java.nio.file.Paths;\n\npublic class provider {\n    static String field(String req, String key) {\n        int p = req.indexOf(\"\\\"\" + key + \"\\\"\");\n        if (p < 0) return \"\";\n        p = req.indexOf(':', p + key.length() + 2);\n        if (p < 0) return \"\";\n        return req.substring(p + 1).trim();\n    }\n\n    static String text(String v) {\n        if (!v.startsWith(\"\\\"\")) return \"\";\n        int end = v.indexOf('\"', 1);\n        return end < 0 ? v.substring(1) : v.substring(1, end);\n    }\n\n    static String number(String v) {\n        int end = 0;\n        while (end < v.length() && \"+-.eE0123456789\".indexOf(v.charAt(end)) >= 0) end++;\n        return end == 0 ? \"0\" : v.substring(0, end);\n    }\n\n    static String quote(String s) {\n        return \"\\\"\" + s.replace(\"\\\\\", \"\\\\\\\\\").replace(\"\\\"\", \"\\\\\\\"\") + \"\\\"\";\n    }\n\n    public static void main(String[] args) throws Exception {\n        String dir = System.getenv().getOrDefault(\"METROPIPE_DIR\", \"/dev/shm\");\n        Path path = Paths.get(dir, \"metro_",
    "\");\n        if (!Files.exists(path)) {\n            Files.createDirectories(path.getParent());\n            byte[] init = new byte[32 + 4096];\n            init[13] = 0x10;\n            Files.write(path, init);\n        }\n        RandomAccessFile file = new RandomAccessFile(path.toFile(), \"rw\");\n        MappedByteBuffer buf = file.getChannel().map(FileChannel.MapMode.READ_WRITE, 0, file.length());\n        buf.order(ByteOrder.LITTLE_ENDIAN);\n        int room = buf.capacity() - 32;\n        System.out.println(\"metropipe provider: ",
    " listening on \" + path);\n        while (true) {\n            if (buf.getInt(0) == 1) {\n                int size = Math.max(0, Math.min(buf.getInt(8), room));\n                byte[] body = new byte[size];\n                buf.position(32);\n                buf.get(body);\n                String req = new String(body, StandardCharsets.UTF_8);\n",
    "",
    "                byte[] resp = (\"{\\\"result\\\": \" + value + \"}\").getBytes(StandardCharsets.UTF_8);\n                int n = Math.min(resp.length, room);\n                buf.position(32);\n                buf.put(resp, 0, n);\n                buf.putInt(8, n);\n                buf.putInt(0, 3);\n            }\n            Thread.sleep(1);\n        }\n    }\n}\n",
];

/// The C# provider: a program built with the source class, whose static
/// method it calls for each request.
/// Placeholders, in order: name, mod, mod, name, name, name, args, result.
pub const CSHARP_PROVIDER: [&'static str; 9] = [
    "\n// The provider of ",
    ": build it with ",
    ".cs, whose class ",
    " defines the\n// static method ",
    ".\nusing System;\nusing System.IO;\nusing System.IO.MemoryMappedFiles;\nusing System.Text.Json;\nusing System.Threading;\n\npublic static class Provider\n{\n    public static void Main()\n    {\n        string dir = Environment.GetEnvironmentVariable(\"METROPIPE_DIR\") ?? \"/dev/shm\";\n        string path = Path.Combine(dir, \"metro_",
    "\");\n        if (!File.Exists(path))\n        {\n            Directory.CreateDirectory(dir);\n            byte[] init = new byte[32 + 4096];\n            BitConverter.GetBytes(4096u).CopyTo(init, 12);\n            File.WriteAllBytes(path, init);\n        }\n        long length = new FileInfo(path).Length;\n        using var map = MemoryMappedFile.CreateFromFile(path, FileMode.Open, null, 0, MemoryMappedFileAccess.ReadWrite);\n        using var view = map.CreateViewAccessor(0, length);\n        int room = (int)length - 32;\n        Console.WriteLine(\"metropipe provider: ",
    " listening on \" + path);\n        while (true)\n        {\n            if (view.ReadUInt32(0) == 1)\n            {\n                int size = (int)Math.Min(view.ReadUInt32(8), (uint)room);\n                byte[] body = new byte[size];\n                view.ReadArray(32, body, 0, size);\n                using var req = JsonDocument.Parse(body);\n",
    "",
    "                byte[] resp = JsonSerializer.SerializeToUtf8Bytes(new { result = value });\n                int n = Math.Min(resp.Length, room);\n                view.WriteArray(32, resp, 0, n);\n                view.Write(8, (uint)n);\n                view.Write(0, 3u);\n            }\n            Thread.Sleep(1);\n        }\n    }\n}\n",
];

} // verus!
