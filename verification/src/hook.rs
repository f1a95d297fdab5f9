//! Inline function hooks.
//!
//! A hook overwrites the first bytes of a target function with a small stub
//! that jumps to a detour, and keeps the overwritten bytes so that they can be
//! put back. The bytes live in process memory; this module computes what to
//! write and what to keep, as plain values. A [`Patch`] names the bytes to
//! write at an address; whoever holds the process memory performs it.
//!
//! Memory is modelled as a byte sequence indexed by address
//! ([`write_bytes`], [`read_bytes`]).
use vstd::prelude::*;
use vstd::bytes::{spec_u64_to_le_bytes, spec_u64_from_le_bytes, lemma_auto_spec_u64_to_from_le_bytes,
    spec_u64_to_le_bytes_to_open};

verus! {

/// Length in bytes of the detour stub written over a hooked function's entry.
pub const OPCODE_SIZE: usize = 12;

/// The stub that transfers control to `addr`:
/// `movabs rax, addr` (0x48 0xB8 and the address, little endian),
/// `push rax` (0x50), `ret` (0xC3).
pub open spec fn trampoline(addr: u64) -> Seq<u8> {
    seq![0x48u8, 0xB8u8] + spec_u64_to_le_bytes(addr) + seq![0x50u8, 0xC3u8]
}

/// The address that a stub of the shape of [`trampoline`] jumps to.
pub open spec fn trampoline_target(code: Seq<u8>) -> u64 {
    spec_u64_from_le_bytes(code.subrange(2, 10))
}

/// The detours this library installs, one per hooked function.
#[derive(Clone, Copy, Debug, PartialEq, Eq, Structural)]
pub enum Detour {
    /// On `cef_initialize` (browser process).
    CefInitialize,
    /// On `cef_browser_host_create_browser` (browser process).
    CefCreateBrowser,
    /// On `cef_execute_process` (renderer process).
    CefExecuteProcess,
    /// On `CreateProcessW` (browser process, when bootstrapped).
    CreateProcessW,
}

/// A function to hook: the detour to install, the library that exports the
/// function and the function's name, both terminated with a zero byte as the
/// loader expects them.
pub struct HookSpec {
    pub detour: Detour,
    pub library: &'static str,
    pub symbol: &'static str,
}

/// `spec` installs `detour` on the function `symbol` of `library`.
pub open spec fn names(spec: HookSpec, detour: Detour, library: Seq<char>, symbol: Seq<char>) -> bool {
    &&& spec.detour == detour
    &&& spec.library@ == library
    &&& spec.symbol@ == symbol
}

/// Replaces the function pointer held in `slot` by `detour` and returns the
/// pointer it held before (0 where it held none), through which the detour
/// forwards its calls.
pub fn proxy_slot(slot: &mut Option<u64>, detour: u64) -> (saved: u64)
    ensures
        *final(slot) == Some(detour),
        saved == (match *old(slot) {
            Some(f) => f,
            None => 0u64,
        }),
{
    let saved = match *slot {
        Some(f) => f,
        None => 0,
    };
    *slot = Some(detour);
    saved
}

/// `n` bytes of `mem` from address `addr` on.
pub open spec fn read_bytes(mem: Seq<u8>, addr: int, n: int) -> Seq<u8> {
    mem.subrange(addr, addr + n)
}

/// `mem` after `bytes` are written from address `addr` on.
pub open spec fn write_bytes(mem: Seq<u8>, addr: int, bytes: Seq<u8>) -> Seq<u8> {
    mem.subrange(0, addr) + bytes + mem.subrange(addr + bytes.len(), mem.len() as int)
}

/// Whether the range `[addr, addr + n)` lies inside `mem`.
pub open spec fn in_bounds(mem: Seq<u8>, addr: int, n: int) -> bool {
    0 <= addr && 0 <= n && addr + n <= mem.len()
}

/// Builds the stub that jumps to `addr`.
pub fn gen_code(addr: u64) -> (opcodes: Vec<u8>)
    ensures
        opcodes@ == trampoline(addr),
        opcodes@.len() == OPCODE_SIZE,
        opcodes@[0] == 0x48u8,
        opcodes@[1] == 0xB8u8,
        opcodes@.subrange(2, 10) == spec_u64_to_le_bytes(addr),
        opcodes@[10] == 0x50u8,
        opcodes@[11] == 0xC3u8,
{
    let mut opcodes: Vec<u8> = Vec::new();
    // movabs rax, [addr]
    opcodes.push(0x48);
    opcodes.push(0xB8);
    opcodes.push((addr & 0xff) as u8);
    opcodes.push(((addr >> 8) & 0xff) as u8);
    opcodes.push(((addr >> 16) & 0xff) as u8);
    opcodes.push(((addr >> 24) & 0xff) as u8);
    opcodes.push(((addr >> 32) & 0xff) as u8);
    opcodes.push(((addr >> 40) & 0xff) as u8);
    opcodes.push(((addr >> 48) & 0xff) as u8);
    opcodes.push(((addr >> 56) & 0xff) as u8);
    // push rax
    opcodes.push(0x50);
    // ret
    opcodes.push(0xC3);
    proof {
        spec_u64_to_le_bytes_to_open(addr);
        assert(opcodes@ =~= trampoline(addr));
        law_stub_bytes(addr);
    }
    opcodes
}

/// Whatever the address, the stub is `movabs rax` (0x48 0xB8), the address
/// in little-endian order, `push rax` (0x50) and `ret` (0xC3): it returns to
/// the address just loaded, and to nothing else.
pub proof fn law_stub_bytes(addr: u64)
    ensures
        trampoline(addr).len() == 12,
        trampoline(addr)[0] == 0x48u8,
        trampoline(addr)[1] == 0xB8u8,
        trampoline(addr).subrange(2, 10) == spec_u64_to_le_bytes(addr),
        trampoline(addr)[10] == 0x50u8,
        trampoline(addr)[11] == 0xC3u8,
{
    lemma_auto_spec_u64_to_from_le_bytes();
    assert(trampoline(addr).subrange(2, 10) =~= spec_u64_to_le_bytes(addr));
}

/// The stub that [`gen_code`] builds jumps to the address it was built for.
pub proof fn law_stub_jumps_to_target(addr: u64)
    ensures
        trampoline(addr).len() == OPCODE_SIZE,
        trampoline_target(trampoline(addr)) == addr,
{
    lemma_auto_spec_u64_to_from_le_bytes();
    assert(trampoline(addr).subrange(2, 10) =~= spec_u64_to_le_bytes(addr));
}

/// A write of `bytes` into process memory from address `addr` on.
pub struct Patch {
    pub addr: u64,
    pub bytes: Vec<u8>,
}

/// The first `n` bytes of `bytes`, copied.
fn copy_prefix(bytes: &[u8], n: usize) -> (out: Vec<u8>)
    requires
        n <= bytes@.len(),
    ensures
        out@ == bytes@.subrange(0, n as int),
{
    let mut out: Vec<u8> = Vec::new();
    let mut i: usize = 0;
    while i < n
        invariant
            i <= n,
            n <= bytes@.len(),
            out@ == bytes@.subrange(0, i as int),
        decreases n - i,
    {
        out.push(bytes[i]);
        i = i + 1;
        assert(out@ =~= bytes@.subrange(0, i as int));
    }
    out
}

/// Keeps the bytes that a patch overwrote at `func`, so that they can be put back.
pub struct SwapGuard {
    pub func: u64,
    pub backup: Vec<u8>,
    pub size: usize,
}

impl SwapGuard {
    /// The guard keeps exactly `size` bytes.
    pub open spec fn wf(&self) -> bool {
        self.backup@.len() == self.size
    }

    /// Overwrites the first `size` bytes at `func` with those of `code`.
    /// `current` holds what is at `func` now (at least `size` bytes); the guard
    /// keeps its first `size` bytes. Returns the guard and the write to perform.
    pub fn new(func: u64, code: &[u8], size: usize, current: &[u8]) -> (res: (SwapGuard, Patch))
        requires
            size <= code@.len(),
            size <= current@.len(),
        ensures
            res.0.wf(),
            res.0.func == func,
            res.0.size == size,
            res.0.backup@ == current@.subrange(0, size as int),
            res.1.addr == func,
            res.1.bytes@ == code@.subrange(0, size as int),
    {
        let backup = copy_prefix(current, size);
        let written = copy_prefix(code, size);
        (SwapGuard { func, backup, size }, Patch { addr: func, bytes: written })
    }

    /// Puts the kept bytes back for the duration of another guard: writes the
    /// backup at `func`, and the new guard keeps what is there now (`current`),
    /// to write it again when it is released.
    pub fn swap(&self, current: &[u8]) -> (res: (SwapGuard, Patch))
        requires
            self.wf(),
            self.size <= current@.len(),
        ensures
            res.0.wf(),
            res.0.func == self.func,
            res.0.size == self.size,
            res.0.backup@ == current@.subrange(0, self.size as int),
            res.1.addr == self.func,
            res.1.bytes@ == self.backup@,
    {
        let res = SwapGuard::new(self.func, self.backup.as_slice(), self.size, current);
        proof {
            assert(self.backup@.subrange(0, self.size as int) =~= self.backup@);
        }
        res
    }

    /// Releases the guard: the write that puts the kept bytes back at `func`.
    pub fn release(self) -> (restore: Patch)
        ensures
            restore.addr == self.func,
            restore.bytes@ == self.backup@,
    {
        Patch { addr: self.func, bytes: self.backup }
    }
}

/// An inline hook: `hook` is the detour's address, `func` the hooked
/// function's, and `backup` guards the overwritten entry while installed.
pub struct Hook {
    pub hook: u64,
    pub func: u64,
    pub backup: Option<SwapGuard>,
}

impl Hook {
    /// A hook that will divert calls to `hook`; nothing is installed yet.
    pub fn new(hook: u64) -> (res: Hook)
        ensures
            res.hook == hook,
            res.func == 0,
            res.backup is None,
    {
        Hook { hook, func: 0, backup: None }
    }

    /// Installs the hook on the function at `func`, whose first bytes are
    /// `current`. Returns the writes to perform, in order: the stub that jumps
    /// to the detour, then, where a guard was already held, the release of
    /// that guard (which puts back the bytes it kept).
    pub fn install(&mut self, func: u64, current: &[u8]) -> (patches: Vec<Patch>)
        requires
            OPCODE_SIZE <= current@.len(),
        ensures
            final(self).hook == old(self).hook,
            final(self).func == func,
            final(self).backup matches Some(g) && g.wf() && g.func == func && g.size == OPCODE_SIZE
                && g.backup@ == current@.subrange(0, OPCODE_SIZE as int),
            patches@.len() == (if old(self).backup is Some { 2int } else { 1int }),
            patches@[0].addr == func,
            patches@[0].bytes@ == trampoline(old(self).hook),
            old(self).backup matches Some(g) ==> patches@[1].addr == g.func && patches@[1].bytes@
                == g.backup@,
    {
        self.func = func;
        let opcodes = gen_code(self.hook);
        let (guard, patch) = SwapGuard::new(func, opcodes.as_slice(), OPCODE_SIZE, current);
        proof {
            assert(opcodes@.subrange(0, OPCODE_SIZE as int) =~= opcodes@);
        }
        let mut patches: Vec<Patch> = Vec::new();
        patches.push(patch);
        let previous = self.backup.take();
        self.backup = Some(guard);
        match previous {
            Some(old_guard) => {
                patches.push(old_guard.release());
            },
            None => {},
        }
        patches
    }

    /// Uninstalls the hook: drops the guard and returns the write that puts
    /// the original bytes back, if a guard was held.
    pub fn uninstall(&mut self) -> (restore: Option<Patch>)
        ensures
            final(self).hook == old(self).hook,
            final(self).func == old(self).func,
            final(self).backup is None,
            old(self).backup is None ==> restore is None,
            old(self).backup matches Some(g) ==> restore matches Some(p) && p.addr == g.func
                && p.bytes@ == g.backup@,
    {
        match self.backup.take() {
            Some(guard) => Some(guard.release()),
            None => None,
        }
    }

    /// Entering the original function from the detour: while the hook is
    /// installed, swaps the kept bytes back in (see [`SwapGuard::swap`]);
    /// `current` holds what is at the hooked function now.
    /// Gives `None` where no guard is held.
    pub fn call_original(&self, current: &[u8]) -> (res: Option<(SwapGuard, Patch)>)
        requires
            self.backup matches Some(g) ==> g.wf() && g.size <= current@.len(),
        ensures
            self.backup is None ==> res is None,
            self.backup matches Some(g) ==> res matches Some(r) && r.0.wf() && r.0.func == g.func
                && r.0.size == g.size && r.0.backup@ == current@.subrange(0, g.size as int)
                && r.1.addr == g.func && r.1.bytes@ == g.backup@,
    {
        match &self.backup {
            Some(guard) => Some(guard.swap(current)),
            None => None,
        }
    }
}

/// Reading back a range just written gives the written bytes; the length of
/// memory does not change.
pub proof fn lemma_read_after_write(mem: Seq<u8>, addr: int, bytes: Seq<u8>)
    requires
        in_bounds(mem, addr, bytes.len() as int),
    ensures
        write_bytes(mem, addr, bytes).len() == mem.len(),
        read_bytes(write_bytes(mem, addr, bytes), addr, bytes.len() as int) == bytes,
{
    assert(read_bytes(write_bytes(mem, addr, bytes), addr, bytes.len() as int) =~= bytes);
}

/// Writing back what a range holds leaves memory unchanged.
pub proof fn lemma_write_back(mem: Seq<u8>, addr: int, n: int)
    requires
        in_bounds(mem, addr, n),
    ensures
        write_bytes(mem, addr, read_bytes(mem, addr, n)) == mem,
{
    assert(write_bytes(mem, addr, read_bytes(mem, addr, n)) =~= mem);
}

/// Releasing a guard undoes the patch that made it: after the first `size`
/// bytes of `code` are written at `addr`, writing back what was read there
/// before gives the memory as it was.
pub proof fn law_release_undoes_patch(mem: Seq<u8>, addr: int, code: Seq<u8>, size: int)
    requires
        in_bounds(mem, addr, size),
        size <= code.len(),
    ensures
        write_bytes(write_bytes(mem, addr, code.subrange(0, size)), addr, read_bytes(mem, addr, size))
            == mem,
{
    let patched = write_bytes(mem, addr, code.subrange(0, size));
    assert(write_bytes(patched, addr, read_bytes(mem, addr, size)) =~= mem);
}

/// Installing a hook and uninstalling it again leaves the hooked function's
/// bytes as they were; while installed, the entry of the function is the stub
/// that jumps to the detour.
pub proof fn law_install_then_uninstall(mem: Seq<u8>, hook: u64, func: u64)
    requires
        in_bounds(mem, func as int, OPCODE_SIZE as int),
    ensures
        trampoline_target(
            read_bytes(write_bytes(mem, func as int, trampoline(hook)), func as int, OPCODE_SIZE as int),
        ) == hook,
        write_bytes(
            write_bytes(mem, func as int, trampoline(hook)),
            func as int,
            read_bytes(mem, func as int, OPCODE_SIZE as int),
        ) == mem,
{
    law_stub_jumps_to_target(hook);
    lemma_read_after_write(mem, func as int, trampoline(hook));
    law_release_undoes_patch(mem, func as int, trampoline(hook), OPCODE_SIZE as int);
    assert(trampoline(hook).subrange(0, OPCODE_SIZE as int) =~= trampoline(hook));
}

/// Calling through an installed hook: the swap guard's write puts the
/// original bytes back (memory is as before installing), and releasing the
/// swap guard puts the stub back (memory is as while installed).
pub proof fn law_swap_round_trip(mem: Seq<u8>, addr: int, code: Seq<u8>, size: int)
    requires
        in_bounds(mem, addr, size),
        size <= code.len(),
    ensures
        ({
            let hooked = write_bytes(mem, addr, code.subrange(0, size));
            let during_call = write_bytes(hooked, addr, read_bytes(mem, addr, size));
            &&& read_bytes(hooked, addr, size) == code.subrange(0, size)
            &&& during_call == mem
            &&& write_bytes(during_call, addr, read_bytes(hooked, addr, size)) == hooked
        }),
{
    let hooked = write_bytes(mem, addr, code.subrange(0, size));
    lemma_read_after_write(mem, addr, code.subrange(0, size));
    law_release_undoes_patch(mem, addr, code, size);
}

} // verus!
