use pengu::hook::{gen_code, proxy_slot, Hook, Patch, SwapGuard, OPCODE_SIZE};

/// Memory of a simulated process: `bytes[i]` is at address `base + i`.
struct Memory {
    base: u64,
    bytes: Vec<u8>,
}

impl Memory {
    fn read(&self, addr: u64, n: usize) -> Vec<u8> {
        let at = (addr - self.base) as usize;
        self.bytes[at..at + n].to_vec()
    }

    fn apply(&mut self, patch: &Patch) {
        let at = (patch.addr - self.base) as usize;
        self.bytes[at..at + patch.bytes.len()].copy_from_slice(&patch.bytes);
    }
}

fn sample_memory() -> Memory {
    Memory { base: 0x1000, bytes: (0..64u8).map(|b| b.wrapping_mul(7).wrapping_add(3)).collect() }
}

#[test]
fn gen_code_builds_movabs_push_ret() {
    let code = gen_code(0x1122_3344_5566_7788);
    assert_eq!(code.len(), OPCODE_SIZE);
    assert_eq!(
        code,
        vec![0x48, 0xB8, 0x88, 0x77, 0x66, 0x55, 0x44, 0x33, 0x22, 0x11, 0x50, 0xC3]
    );
}

#[test]
fn gen_code_target_reads_back() {
    for addr in [0u64, 1, 0xdead_beef, u64::MAX, 0x7ff6_1234_5678] {
        let code = gen_code(addr);
        let mut le = [0u8; 8];
        le.copy_from_slice(&code[2..10]);
        assert_eq!(u64::from_le_bytes(le), addr);
    }
}

#[test]
fn swap_guard_release_restores() {
    let mut mem = sample_memory();
    let original = mem.bytes.clone();
    let code = [0xAAu8, 0xBB, 0xCC, 0xDD, 0xEE];
    let current = mem.read(0x1008, 8);
    let (guard, patch) = SwapGuard::new(0x1008, &code, 4, &current);
    assert_eq!(guard.size, 4);
    assert_eq!(guard.func, 0x1008);
    assert_eq!(guard.backup, original[8..12].to_vec());
    assert_eq!(patch.addr, 0x1008);
    assert_eq!(patch.bytes, vec![0xAA, 0xBB, 0xCC, 0xDD]);
    mem.apply(&patch);
    assert_eq!(mem.read(0x1008, 5), vec![0xAA, 0xBB, 0xCC, 0xDD, original[12]]);
    let restore = guard.release();
    mem.apply(&restore);
    assert_eq!(mem.bytes, original);
}

#[test]
fn hook_install_then_uninstall_restores() {
    let mut mem = sample_memory();
    let original = mem.bytes.clone();
    let mut hook = Hook::new(0x4242_4242);
    assert_eq!(hook.func, 0);
    assert!(hook.backup.is_none());
    let current = mem.read(0x1010, OPCODE_SIZE);
    let patches = hook.install(0x1010, &current);
    assert_eq!(patches.len(), 1);
    assert_eq!(hook.func, 0x1010);
    for p in &patches {
        mem.apply(p);
    }
    assert_eq!(mem.read(0x1010, OPCODE_SIZE), gen_code(0x4242_4242));
    assert_eq!(mem.bytes[..0x10], original[..0x10]);
    assert_eq!(mem.bytes[0x1c..], original[0x1c..]);
    let restore = hook.uninstall().expect("a guard is held");
    mem.apply(&restore);
    assert_eq!(mem.bytes, original);
    assert!(hook.backup.is_none());
    assert!(hook.uninstall().is_none());
}

#[test]
fn hook_call_original_swaps_and_reinstalls() {
    let mut mem = sample_memory();
    let original = mem.bytes.clone();
    let mut hook = Hook::new(0x9999);
    assert!(hook.call_original(&mem.read(0x1000, OPCODE_SIZE)).is_none());
    let patches = hook.install(0x1000, &mem.read(0x1000, OPCODE_SIZE));
    mem.apply(&patches[0]);
    let hooked = mem.bytes.clone();
    let (swap, patch) = hook.call_original(&mem.read(0x1000, OPCODE_SIZE)).expect("installed");
    mem.apply(&patch);
    assert_eq!(mem.bytes, original);
    mem.apply(&swap.release());
    assert_eq!(mem.bytes, hooked);
}

#[test]
fn hook_installed_twice_puts_back_the_older_backup() {
    let mut mem = sample_memory();
    let original = mem.bytes.clone();
    let mut hook = Hook::new(0x5555);
    for p in hook.install(0x1000, &mem.read(0x1000, OPCODE_SIZE)) {
        mem.apply(&p);
    }
    let patches = hook.install(0x1000, &mem.read(0x1000, OPCODE_SIZE));
    assert_eq!(patches.len(), 2);
    assert_eq!(patches[0].bytes, gen_code(0x5555));
    assert_eq!(patches[1].bytes, original[..OPCODE_SIZE].to_vec());
    for p in &patches {
        mem.apply(p);
    }
    assert_eq!(mem.bytes, original);
    let guard = hook.backup.as_ref().expect("a guard is held");
    assert_eq!(guard.backup, gen_code(0x5555));
}

#[test]
fn proxy_slot_replaces_and_saves() {
    let mut slot = Some(0x1234u64);
    assert_eq!(proxy_slot(&mut slot, 0x5678), 0x1234);
    assert_eq!(slot, Some(0x5678));
    let mut empty: Option<u64> = None;
    assert_eq!(proxy_slot(&mut empty, 0x77), 0);
    assert_eq!(empty, Some(0x77));
}
