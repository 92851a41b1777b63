//! The name of the file that keeps a cartridge's RAM between runs: the ROM's file name with its
//! `.gb` or `.gbc` extension replaced by `.srm`.

use vstd::prelude::*;

verus! {

/// Where the last `.` of `s` stands, or -1 if there is none.
pub open spec fn last_dot(s: Seq<u8>) -> int
    decreases s.len(),
{
    if s.len() == 0 {
        -1
    } else if s.last() == 0x2E {
        s.len() - 1
    } else {
        last_dot(s.drop_last())
    }
}

/// The name of the save file of the ROM file `rom_name`: what follows its last `.` (the whole
/// name when there is no `.`) must be `gb` or `gbc`, and is replaced by `srm`.
pub open spec fn save_name_of(rom_name: Seq<u8>) -> Option<Seq<u8>> {
    let k = last_dot(rom_name);
    let ext = rom_name.subrange(k + 1, rom_name.len() as int);
    if ext == seq![0x67u8, 0x62u8] || ext == seq![0x67u8, 0x62u8, 0x63u8] {
        Some(rom_name.subrange(0, k + 1) + seq![0x73u8, 0x72u8, 0x6Du8])
    } else {
        None
    }
}

proof fn lemma_last_dot(s: Seq<u8>, i: int)
    requires
        0 <= i <= s.len(),
        forall|j: int| i <= j < s.len() ==> s[j] != 0x2E,
    ensures
        last_dot(s) == last_dot(s.take(i)),
        -1 <= last_dot(s) < s.len(),
        last_dot(s) >= 0 ==> s[last_dot(s)] == 0x2E,
    decreases s.len(),
{
    if s.len() > 0 {
        if i < s.len() {
            assert(s.drop_last().take(i) =~= s.take(i));
            lemma_last_dot(s.drop_last(), i);
        } else {
            assert(s.take(i) =~= s);
            lemma_last_dot(s.drop_last(), s.len() - 1);
        }
    }
}

/// The name of the save file that goes with the ROM file `rom_name`, or `None` when the name
/// does not end in `.gb` or `.gbc`.
pub fn save_file_name(rom_name: &[u8]) -> (r: Option<Vec<u8>>)
    ensures
        match save_name_of(rom_name@) {
            Some(n) => r matches Some(v) && v@ == n,
            None => r is None,
        },
{
    let n = rom_name.len();
    let mut i = n;
    while i > 0 && rom_name[i - 1] != 0x2E
        invariant
            i <= n == rom_name@.len(),
            forall|j: int| i <= j < n ==> rom_name@[j] != 0x2E,
        decreases i,
    {
        i = i - 1;
    }
    proof {
        lemma_last_dot(rom_name@, i as int);
        if i > 0 {
            let t = rom_name@.take(i as int);
            assert(t.last() == 0x2E);
            assert(last_dot(t) == i - 1);
        } else {
            assert(rom_name@.take(0) =~= Seq::<u8>::empty());
            assert(last_dot(rom_name@.take(0)) == -1);
        }
        assert(last_dot(rom_name@) == i - 1);
    }
    let ext_len = n - i;
    let is_gb = ext_len == 2 && rom_name[i] == 0x67 && rom_name[i + 1] == 0x62;
    let is_gbc = ext_len == 3 && rom_name[i] == 0x67 && rom_name[i + 1] == 0x62 && rom_name[i + 2] == 0x63;
    let ghost ext = rom_name@.subrange(i as int, n as int);
    proof {
        if is_gb {
            assert(ext =~= seq![0x67u8, 0x62u8]);
        }
        if is_gbc {
            assert(ext =~= seq![0x67u8, 0x62u8, 0x63u8]);
        }
        if ext == seq![0x67u8, 0x62u8] {
            assert(ext.len() == 2);
            assert(ext[0] == 0x67 && ext[1] == 0x62);
            assert(ext[0] == rom_name@[i as int]);
            assert(ext[1] == rom_name@[i + 1]);
        }
        if ext == seq![0x67u8, 0x62u8, 0x63u8] {
            assert(ext.len() == 3);
            assert(ext[0] == 0x67 && ext[1] == 0x62 && ext[2] == 0x63);
            assert(ext[0] == rom_name@[i as int]);
            assert(ext[1] == rom_name@[i + 1]);
            assert(ext[2] == rom_name@[i + 2]);
        }
    }
    if !is_gb && !is_gbc {
        return None;
    }
    let mut name: Vec<u8> = Vec::new();
    let mut k: usize = 0;
    while k < i
        invariant
            k <= i <= n == rom_name@.len(),
            name@ == rom_name@.subrange(0, k as int),
        decreases i - k,
    {
        name.push(rom_name[k]);
        k = k + 1;
        assert(name@ =~= rom_name@.subrange(0, k as int));
    }
    name.push(0x73);
    name.push(0x72);
    name.push(0x6D);
    assert(name@ =~= rom_name@.subrange(0, i as int) + seq![0x73u8, 0x72u8, 0x6Du8]);
    Some(name)
}

} // verus!
