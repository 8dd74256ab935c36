//! Text templates of the per-service client stubs.
//!
//! Each template is the list of text pieces that stand around its placeholders.
//! `Name` is the service name with its first letter in upper case; `NAME` is the
//! whole service name in upper case.
use vstd::prelude::*;

verus! {

/// The C client header of a service.
/// Placeholders, in order: NAME, NAME, name, name.
pub const C_CLIENT_HEADER: [&'static str; 5] = [
    "\n#ifndef METROPIPE_",
    "_H\n#define METROPIPE_",
    "_H\n\n#include <stdint.h>\n#include <stdatomic.h>\n#include <stddef.h>\n\n#define METRO_SERVICE \"",
    "\"\n#define METRO_SHM_PATH \"/dev/shm/metro_",
    "\"\n#define METRO_HEADER_SIZE 32\n#define METRO_OFFSET_PAYLOAD 32\n#define METRO_CAPACITY 4096\n\n#define METRO_STATUS_IDLE 0\n#define METRO_STATUS_CONSUMER_REQ 1\n#define METRO_STATUS_PROVIDER_RES 3\n\ntypedef struct {\n    volatile uint32_t *header;\n    volatile uint8_t  *payload;\n    size_t capacity;\n    int fd;\n} MetroChannel;\n\nint metro_channel_open(MetroChannel *ch, const char *shm_path);\nint metro_channel_send(MetroChannel *ch, const uint8_t *data, size_t len);\nint metro_channel_recv(MetroChannel *ch, uint8_t *out, size_t max_len, int timeout_ms);\n\n#endif\n",
];

/// The Python client of a service.
/// Placeholders, in order: name, Name.
pub const PYTHON_CLIENT: [&'static str; 3] = [
    "\nimport mmap, struct, time, os\n\nSHM_PATH = \"/dev/shm/metro_",
    "\"\nSTATUS_IDLE = 0\nSTATUS_CONSUMER_REQ = 1\nSTATUS_PROVIDER_RES = 3\nPAYLOAD_OFFSET = 32\n\nclass ",
    "Client:\n    def __init__(self):\n        fd = open(SHM_PATH, \"r+b\")\n        self.mm = mmap.mmap(fd.fileno(), 0)\n\n    def request(self, payload: bytes, timeout_ms=5000) -> bytes:\n        start = time.monotonic()\n        while struct.unpack_from(\"<I\", self.mm, 0)[0] != STATUS_IDLE:\n            if (time.monotonic() - start) * 1000 > timeout_ms:\n                raise TimeoutError(\"timeout\")\n            time.sleep(0.001)\n        self.mm[PAYLOAD_OFFSET:PAYLOAD_OFFSET+len(payload)] = payload\n        struct.pack_into(\"<I\", self.mm, 8, len(payload))\n        struct.pack_into(\"<I\", self.mm, 0, STATUS_CONSUMER_REQ)\n        resp_start = time.monotonic()\n        while True:\n            status = struct.unpack_from(\"<I\", self.mm, 0)[0]\n            if status == STATUS_PROVIDER_RES:\n                size = struct.unpack_from(\"<I\", self.mm, 8)[0]\n                resp = bytes(self.mm[PAYLOAD_OFFSET:PAYLOAD_OFFSET+size])\n                struct.pack_into(\"<I\", self.mm, 0, STATUS_IDLE)\n                return resp\n            if (time.monotonic() - resp_start) * 1000 > timeout_ms:\n                raise TimeoutError(\"timeout\")\n            time.sleep(0.001)\n\n    def close(self):\n        self.mm.close()\n",
];

/// The JavaScript client of a service.
/// Placeholders, in order: name, Name, Name.
pub const JS_CLIENT: [&'static str; 4] = [
    "\nconst fs = require('fs');\nconst path = require('path');\n\nconst SHM_PATH = \"/dev/shm/metro_",
    "\";\nconst STATUS_IDLE = 0;\nconst STATUS_CONSUMER_REQ = 1;\nconst STATUS_PROVIDER_RES = 3;\nconst OFFSET_PAYLOAD = 32;\n\nclass ",
    "Client {\n    constructor() {\n        const size = fs.statSync(SHM_PATH).size;\n        this.buffer = new SharedArrayBuffer(size);\n        this.header = new Int32Array(this.buffer, 0, 8);\n        this.payload = new Uint8Array(this.buffer, OFFSET_PAYLOAD);\n        new Uint8Array(this.buffer).set(fs.readFileSync(SHM_PATH));\n    }\n\n    async request(payload, timeoutMs = 5000) {\n        const start = Date.now();\n        while (Atomics.load(this.header, 0) !== STATUS_IDLE) {\n            if (Date.now() - start > timeoutMs) throw new Error('timeout');\n            await new Promise(r => setTimeout(r, 1));\n        }\n        this.payload.set(payload);\n        this.header[2] = payload.length;\n        Atomics.store(this.header, 0, STATUS_CONSUMER_REQ);\n        const respStart = Date.now();\n        while (true) {\n            const status = Atomics.load(this.header, 0);\n            if (status === STATUS_PROVIDER_RES) {\n                const size = this.header[2];\n                const resp = this.payload.slice(0, size);\n                Atomics.store(this.header, 0, STATUS_IDLE);\n                return resp;\n            }\n            if (Date.now() - respStart > timeoutMs) throw new Error('timeout');\n            await new Promise(r => setTimeout(r, 1));\n        }\n    }\n}\n\nmodule.exports = { ",
    "Client };\n",
];

/// The Rust client of a service.
/// Placeholders, in order: name, Name, Name.
pub const RUST_CLIENT: [&'static str; 4] = [
    "\nuse std::fs::OpenOptions;\nuse std::os::unix::io::AsRawFd;\nuse std::time::Instant;\n\nconst SHM_PATH: &str = \"/dev/shm/metro_",
    "\";\nconst STATUS_IDLE: u32 = 0;\nconst STATUS_CONSUMER_REQ: u32 = 1;\nconst STATUS_PROVIDER_RES: u32 = 3;\nconst PAYLOAD_OFFSET: u32 = 32;\n\npub struct ",
    "Channel {\n    ptr: *mut u8,\n    len: usize,\n}\n\nimpl ",
    "Channel {\n    pub fn open() -> Result<Self, String> {\n        let fd = OpenOptions::new()\n            .read(true).write(true)\n            .open(SHM_PATH).map_err(|e| e.to_string())?;\n        let len = std::fs::metadata(SHM_PATH).map_err(|e| e.to_string())?.len() as usize;\n        let ptr = unsafe { libc::mmap(std::ptr::null_mut(), len,\n            libc::PROT_READ|libc::PROT_WRITE, libc::MAP_SHARED, fd.as_raw_fd(), 0) };\n        if ptr == libc::MAP_FAILED { return Err(\"mmap\".into()); }\n        Ok(Self { ptr: ptr as *mut u8, len })\n    }\n\n    pub fn request(&self, payload: &[u8], timeout_ms: u64) -> Result<Vec<u8>, String> {\n        let start = Instant::now();\n        unsafe {\n            let status = &*(self.ptr as *const std::sync::atomic::AtomicU32);\n            let size_ptr = &*(self.ptr.add(8) as *const std::sync::atomic::AtomicU32);\n            let payload_ptr = self.ptr.add(PAYLOAD_OFFSET as usize);\n            while status.load(std::sync::atomic::Ordering::SeqCst) != STATUS_IDLE {\n                if start.elapsed().as_millis() as u64 > timeout_ms {\n                    return Err(\"timeout\".into());\n                }\n            }\n            std::ptr::copy_nonoverlapping(payload.as_ptr(), payload_ptr, payload.len());\n            size_ptr.store(payload.len() as u32, std::sync::atomic::Ordering::SeqCst);\n            status.store(STATUS_CONSUMER_REQ, std::sync::atomic::Ordering::SeqCst);\n            let resp_start = Instant::now();\n            loop {\n                let s = status.load(std::sync::atomic::Ordering::SeqCst);\n                if s == STATUS_PROVIDER_RES {\n                    let resp_size = size_ptr.load(std::sync::atomic::Ordering::SeqCst) as usize;\n                    let mut resp = vec![0u8; resp_size];\n                    std::ptr::copy_nonoverlapping(payload_ptr, resp.as_mut_ptr(), resp_size);\n                    status.store(STATUS_IDLE, std::sync::atomic::Ordering::SeqCst);\n                    return Ok(resp);\n                }\n                if resp_start.elapsed().as_millis() as u64 > timeout_ms {\n                    return Err(\"timeout\".into());\n                }\n            }\n        }\n    }\n}\n",
];

/// The Go client of a service.
/// Placeholders, in order: name, name, Name, Name, Name, Name.
pub const GO_CLIENT: [&'static str; 7] = [
    "\npackage ",
    "\n\nimport (\n    \"encoding/binary\"\n    \"fmt\"\n    \"os\"\n    \"syscall\"\n    \"time\"\n)\n\nconst shmPath = \"/dev/shm/metro_",
    "\"\nconst statusIdle = 0\nconst statusConsumerReq = 1\nconst statusProviderRes = 3\nconst payloadOffset = 32\n\ntype ",
    "Channel struct { data []byte }\n\nfunc Open() (*",
    "Channel, error) {\n    f, err := os.OpenFile(shmPath, os.O_RDWR, 0)\n    if err != nil { return nil, err }\n    defer f.Close()\n    fi, _ := f.Stat()\n    data, err := syscall.Mmap(int(f.Fd()), 0, int(fi.Size()),\n        syscall.PROT_READ|syscall.PROT_WRITE, syscall.MAP_SHARED)\n    if err != nil { return nil, err }\n    return &",
    "Channel{data: data}, nil\n}\n\nfunc (ch *",
    "Channel) Request(payload []byte, timeoutMs int) ([]byte, error) {\n    start := time.Now()\n    for binary.LittleEndian.Uint32(ch.data[0:4]) != statusIdle {\n        if time.Since(start).Milliseconds() > int64(timeoutMs) { return nil, fmt.Errorf(\"timeout\") }\n        time.Sleep(time.Millisecond)\n    }\n    copy(ch.data[payloadOffset:payloadOffset+len(payload)], payload)\n    binary.LittleEndian.PutUint32(ch.data[8:12], uint32(len(payload)))\n    binary.LittleEndian.PutUint32(ch.data[0:4], statusConsumerReq)\n    respStart := time.Now()\n    for {\n        s := binary.LittleEndian.Uint32(ch.data[0:4])\n        if s == statusProviderRes {\n            sz := binary.LittleEndian.Uint32(ch.data[8:12])\n            resp := make([]byte, sz)\n            copy(resp, ch.data[payloadOffset:payloadOffset+int(sz)])\n            binary.LittleEndian.PutUint32(ch.data[0:4], statusIdle)\n            return resp, nil\n        }\n        if time.Since(respStart).Milliseconds() > int64(timeoutMs) { return nil, fmt.Errorf(\"timeout\") }\n        time.Sleep(time.Millisecond)\n    }\n}\n",
];

/// The Java client of a service.
/// Placeholders, in order: Name, name, Name.
pub const JAVA_CLIENT: [&'static str; 4] = [
    "\nimport java.io.RandomAccessFile;\nimport java.nio.MappedByteBuffer;\nimport java.nio.channels.FileChannel;\nimport java.nio.ByteOrder;\n\npublic class ",
    "Channel {\n    private static final String SHM_PATH = \"/dev/shm/metro_",
    "\";\n    private static final int PAYLOAD_OFFSET = 32;\n    private static final int STATUS_IDLE = 0;\n    private static final int STATUS_CONSUMER_REQ = 1;\n    private static final int STATUS_PROVIDER_RES = 3;\n    private MappedByteBuffer buf;\n\n    public ",
    "Channel() throws Exception {\n        RandomAccessFile f = new RandomAccessFile(SHM_PATH, \"rw\");\n        this.buf = f.getChannel().map(FileChannel.MapMode.READ_WRITE, 0, 32 + 4096);\n        this.buf.order(ByteOrder.LITTLE_ENDIAN);\n    }\n\n    public byte[] request(byte[] payload, long timeoutMs) throws Exception {\n        long start = System.nanoTime();\n        while (buf.getInt(0) != STATUS_IDLE) {\n            if ((System.nanoTime() - start) / 1_000_000 > timeoutMs) throw new Exception(\"timeout\");\n            Thread.sleep(1);\n        }\n        buf.position(PAYLOAD_OFFSET); buf.put(payload);\n        buf.putInt(8, payload.length); buf.putInt(0, STATUS_CONSUMER_REQ);\n        long respStart = System.nanoTime();\n        while (true) {\n            int s = buf.getInt(0);\n            if (s == STATUS_PROVIDER_RES) {\n                int sz = buf.getInt(8); byte[] resp = new byte[sz];\n                buf.position(PAYLOAD_OFFSET); buf.get(resp, 0, sz);\n                buf.putInt(0, STATUS_IDLE); return resp;\n            }\n            if ((System.nanoTime() - respStart) / 1_000_000 > timeoutMs) throw new Exception(\"timeout\");\n            Thread.sleep(1);\n        }\n    }\n}\n",
];

/// The C# client of a service.
/// Placeholders, in order: Name, name, Name.
pub const CSHARP_CLIENT: [&'static str; 4] = [
    "\nusing System;\nusing System.IO.MemoryMappedFiles;\nusing System.Threading;\n\nclass ",
    "Channel {\n    const string ShmPath = \"/dev/shm/metro_",
    "\";\n    const int PayloadOffset = 32;\n    const int StatusIdle = 0;\n    const int StatusConsumerReq = 1;\n    const int StatusProviderRes = 3;\n    private MemoryMappedViewAccessor acc;\n\n    public ",
    "Channel() {\n        var mmf = MemoryMappedFile.CreateFromFile(ShmPath, FileMode.Open);\n        acc = mmf.CreateViewAccessor(0, 32 + 4096);\n    }\n\n    public byte[] Request(byte[] payload, int timeoutMs) {\n        var start = DateTime.Now;\n        while (acc.ReadInt32(0) != StatusIdle) {\n            if ((DateTime.Now - start).TotalMilliseconds > timeoutMs) throw new TimeoutException();\n            Thread.Sleep(1);\n        }\n        acc.WriteArray(PayloadOffset, payload, 0, payload.Length);\n        acc.Write(8, payload.Length); acc.Write(0, StatusConsumerReq);\n        var rs = DateTime.Now;\n        while (true) {\n            int s = acc.ReadInt32(0);\n            if (s == StatusProviderRes) {\n                int sz = acc.ReadInt32(8); byte[] resp = new byte[sz];\n                acc.ReadArray(PayloadOffset, resp, 0, sz);\n                acc.Write(0, StatusIdle); return resp;\n            }\n            if ((DateTime.Now - rs).TotalMilliseconds > timeoutMs) throw new TimeoutException();\n            Thread.Sleep(1);\n        }\n    }\n}\n",
];

/// The Ruby client of a service.
/// Placeholders, in order: name, Name.
pub const RUBY_CLIENT: [&'static str; 3] = [
    "\nrequire 'io/extra'\n\nSHM_PATH = \"/dev/shm/metro_",
    "\"\nSTATUS_IDLE = 0\nSTATUS_CONSUMER_REQ = 1\nSTATUS_PROVIDER_RES = 3\nPAYLOAD_OFFSET = 32\n\nclass ",
    "Client\n  def initialize\n    @fd = IO.sysopen(SHM_PATH, File::RDWR)\n    @buf = IO.mmap(@fd, File.size(SHM_PATH), IO::PROT_READ|IO::PROT_WRITE, IO::MAP_SHARED)\n  end\n\n  def request(payload, timeout_ms = 5000)\n    start = Time.now\n    while @buf[0, 4].unpack1('L') != STATUS_IDLE\n      raise 'timeout' if (Time.now - start) * 1000 > timeout_ms\n      sleep 0.001\n    end\n    @buf[PAYLOAD_OFFSET, payload.bytesize] = payload\n    @buf[8, 4] = [payload.bytesize].pack('L')\n    @buf[0, 4] = [STATUS_CONSUMER_REQ].pack('L')\n    rs = Time.now\n    loop do\n      s = @buf[0, 4].unpack1('L')\n      if s == STATUS_PROVIDER_RES\n        sz = @buf[8, 4].unpack1('L')\n        resp = @buf[PAYLOAD_OFFSET, sz]\n        @buf[0, 4] = [STATUS_IDLE].pack('L')\n        return resp\n      end\n      raise 'timeout' if (Time.now - rs) * 1000 > timeout_ms\n      sleep 0.001\n    end\n  end\n\n  def close\n    IO.munmap(@buf); @fd.close\n  end\nend\n",
];

/// The Bash client of a service.
/// Placeholders, in order: name, name, name.
pub const BASH_CLIENT: [&'static str; 4] = [
    "#!/bin/bash\n# metropipe bash stub for ",
    "\n# Usage: source metropipe_",
    ".sh && metropipe_request \"payload\"\n# Requires: metropipe proxy (handles the mmap)\n\nMETROPIPE_SERVICE=\"",
    "\"\n\nmetropipe_request() {\n    echo \"$1\" | metropipe proxy \"$METROPIPE_SERVICE\"\n}\n",
];

/// The service definition file written by `bind`.
/// Placeholders, in order: name.
pub const SERVICE_DEFINITION: [&'static str; 2] = ["SERVICE ", " {\n  INPUT request: Data;\n  OUTPUT response: Data;\n}\n"];

} // verus!
