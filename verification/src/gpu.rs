use vstd::prelude::*;
use vstd::string::StringExecFns;

use crate::text::{
    is_space, leading_spaces, occurs_at, trailing_spaces, trim_end, trim_start,
    after_first_line, chars_of, contains, contains_in, find, find_in, first_line,
    lemma_find_from_bounds, lines, newline_index, parse_u32, parse_u32_in, push_range,
    str_contains, trim, trim_bounds,
};

verus! {

/// What the GPU tools report about the machine.
#[derive(Debug)]
pub struct GpuInfo {
    pub name: String,
    pub vram_mb: u32,
    pub available: bool,
    pub driver_loaded: bool,
    pub rocmsmi_available: bool,
}

/// The GPU name that a line of `rocminfo` output gives: a `Name:` or `Marketing Name`
/// line that mentions a "Radeon RX" card names it by the text from "RX" on,
/// prefixed with "AMD ".
pub open spec fn name_from_line(line: Seq<char>) -> Option<Seq<char>> {
    if (contains(line, "Marketing Name"@) || contains(line, "Name:"@)) && contains(
        line,
        "Radeon RX"@,
    ) {
        let n = trim(line.skip(find(line, "Radeon RX"@)->0 + 7));
        Some(
            if contains(n, "RX"@) {
                "AMD "@ + n
            } else {
                n
            },
        )
    } else {
        None
    }
}

/// The line holds both "Size:" and "KB".
pub open spec fn is_size_line(line: Seq<char>) -> bool {
    contains(line, "Size:"@) && contains(line, "KB"@)
}

/// The text between the first "Size:" and the first "KB" of a size line, trimmed.
pub open spec fn size_field(line: Seq<char>) -> Seq<char> {
    trim(line.subrange(find(line, "Size:"@)->0 + 5, find(line, "KB"@)->0))
}

/// A size line can be read: its first "KB" does not start before its first "Size:" ends.
pub open spec fn size_line_readable(line: Seq<char>) -> bool {
    is_size_line(line) ==> find(line, "Size:"@)->0 + 5 <= find(line, "KB"@)->0
}

/// The video memory in MiB that a line of `rocminfo` output gives: a size line whose
/// field is a number of KiB above 1000000.
pub open spec fn vram_from_line(line: Seq<char>) -> Option<u32> {
    if is_size_line(line) {
        match parse_u32(size_field(line)) {
            Some(kb) => if kb > 1000000 {
                Some((kb / 1024) as u32)
            } else {
                None
            },
            None => None,
        }
    } else {
        None
    }
}

/// Name and memory after reading `ls` in order, starting from `name` and `vram`;
/// a later line overrides an earlier one.
pub open spec fn scan_lines(ls: Seq<Seq<char>>, name: Seq<char>, vram: u32) -> (Seq<char>, u32)
    decreases ls.len(),
{
    if ls.len() == 0 {
        (name, vram)
    } else {
        let l = ls[0];
        scan_lines(
            ls.drop_first(),
            match name_from_line(l) {
                Some(n) => n,
                None => name,
            },
            match vram_from_line(l) {
                Some(v) => v,
                None => vram,
            },
        )
    }
}

/// Every line of `ls` can be read.
pub open spec fn all_readable(ls: Seq<Seq<char>>) -> bool
    decreases ls.len(),
{
    ls.len() == 0 || (size_line_readable(ls[0]) && all_readable(ls.drop_first()))
}

/// The output of `rocminfo` can be read without slicing a line backwards.
pub open spec fn rocminfo_readable(s: Seq<char>) -> bool {
    all_readable(lines(s))
}

/// Name and memory that the output of `rocminfo` reports (`None`: it did not run successfully).
pub open spec fn rocminfo_summary(out: Option<Seq<char>>) -> (Seq<char>, u32) {
    match out {
        Some(s) => scan_lines(lines(s), Seq::empty(), 0),
        None => (Seq::empty(), 0),
    }
}


/// A line of `rocminfo` output that lists a memory pool larger than 1000000 KiB.
pub open spec fn large_pool_line(line: Seq<char>) -> bool {
    &&& is_size_line(line)
    &&& parse_u32(size_field(line)) is Some
    &&& parse_u32(size_field(line))->0 > 1000000
}

proof fn lemma_scan_keeps_vram(ls: Seq<Seq<char>>, name: Seq<char>, vram: u32)
    requires
        forall|j: int| 0 <= j < ls.len() ==> !large_pool_line(#[trigger] ls[j]),
    ensures
        scan_lines(ls, name, vram).1 == vram,
    decreases ls.len(),
{
    if ls.len() > 0 {
        assert(!large_pool_line(ls[0]));
        let next = match name_from_line(ls[0]) {
            Some(n) => n,
            None => name,
        };
        assert forall|j: int| 0 <= j < ls.drop_first().len() implies !large_pool_line(
            #[trigger] ls.drop_first()[j],
        ) by {
            assert(ls.drop_first()[j] == ls[j + 1]);
        }
        lemma_scan_keeps_vram(ls.drop_first(), next, vram);
    }
}

proof fn lemma_scan_last_pool(ls: Seq<Seq<char>>, name: Seq<char>, vram: u32, k: int)
    requires
        0 <= k < ls.len(),
        large_pool_line(ls[k]),
        forall|j: int| k < j < ls.len() ==> !large_pool_line(#[trigger] ls[j]),
    ensures
        scan_lines(ls, name, vram).1 == (parse_u32(size_field(ls[k]))->0 / 1024) as u32,
    decreases ls.len(),
{
    let next_name = match name_from_line(ls[0]) {
        Some(n) => n,
        None => name,
    };
    let next_vram = match vram_from_line(ls[0]) {
        Some(v) => v,
        None => vram,
    };
    let rest = ls.drop_first();
    if k == 0 {
        assert forall|j: int| 0 <= j < rest.len() implies !large_pool_line(#[trigger] rest[j]) by {
            assert(rest[j] == ls[j + 1]);
        }
        lemma_scan_keeps_vram(rest, next_name, next_vram);
    } else {
        assert(rest[k - 1] == ls[k]);
        assert forall|j: int| k - 1 < j < rest.len() implies !large_pool_line(#[trigger] rest[j]) by {
            assert(rest[j] == ls[j + 1]);
        }
        lemma_scan_last_pool(rest, next_name, next_vram, k - 1);
    }
}

/// Law: the VRAM reported is that of the last line listing a memory pool above 1000000 KiB
/// (its size in KiB divided by 1024), whatever the lines before it list.
pub proof fn lemma_last_large_pool_wins(s: Seq<char>, k: int)
    requires
        0 <= k < lines(s).len(),
        large_pool_line(lines(s)[k]),
        forall|j: int| k < j < lines(s).len() ==> !large_pool_line(#[trigger] lines(s)[j]),
    ensures
        rocminfo_summary(Some(s)).1 == parse_u32(size_field(lines(s)[k]))->0 / 1024,
{
    lemma_scan_last_pool(lines(s), Seq::empty(), 0, k);
}

/// Law: with no line listing a memory pool above 1000000 KiB, no VRAM is reported.
pub proof fn lemma_no_large_pool(s: Seq<char>)
    requires
        forall|j: int| 0 <= j < lines(s).len() ==> !large_pool_line(#[trigger] lines(s)[j]),
    ensures
        rocminfo_summary(Some(s)).1 == 0,
{
    lemma_scan_keeps_vram(lines(s), Seq::empty(), 0);
}


/// A line of `rocminfo` output that names a Radeon RX card: a `Name:` or `Marketing Name`
/// line that mentions "Radeon RX".
pub open spec fn radeon_name_line(line: Seq<char>) -> bool {
    (contains(line, "Marketing Name"@) || contains(line, "Name:"@)) && contains(line, "Radeon RX"@)
}

proof fn lemma_scan_keeps_name(ls: Seq<Seq<char>>, name: Seq<char>, vram: u32)
    requires
        forall|j: int| 0 <= j < ls.len() ==> !radeon_name_line(#[trigger] ls[j]),
    ensures
        scan_lines(ls, name, vram).0 == name,
    decreases ls.len(),
{
    if ls.len() > 0 {
        assert(!radeon_name_line(ls[0]));
        let next = match vram_from_line(ls[0]) {
            Some(v) => v,
            None => vram,
        };
        assert forall|j: int| 0 <= j < ls.drop_first().len() implies !radeon_name_line(
            #[trigger] ls.drop_first()[j],
        ) by {
            assert(ls.drop_first()[j] == ls[j + 1]);
        }
        lemma_scan_keeps_name(ls.drop_first(), name, next);
    }
}

proof fn lemma_scan_last_name(ls: Seq<Seq<char>>, name: Seq<char>, vram: u32, k: int)
    requires
        0 <= k < ls.len(),
        radeon_name_line(ls[k]),
        forall|j: int| k < j < ls.len() ==> !radeon_name_line(#[trigger] ls[j]),
    ensures
        scan_lines(ls, name, vram).0 == "AMD "@ + trim(ls[k].skip(find(ls[k], "Radeon RX"@)->0 + 7)),
    decreases ls.len(),
{
    let next_name = match name_from_line(ls[0]) {
        Some(n) => n,
        None => name,
    };
    let next_vram = match vram_from_line(ls[0]) {
        Some(v) => v,
        None => vram,
    };
    let rest = ls.drop_first();
    if k == 0 {
        assert forall|j: int| 0 <= j < rest.len() implies !radeon_name_line(#[trigger] rest[j]) by {
            assert(rest[j] == ls[j + 1]);
        }
        lemma_scan_keeps_name(rest, next_name, next_vram);
        lemma_find_from_bounds(ls[0], "Radeon RX"@, 0);
        let n = trim(ls[0].skip(find(ls[0], "Radeon RX"@)->0 + 7));
        lemma_trimmed_rest_starts_with_rx(ls[0]);
        assert(contains(n, "RX"@));
    } else {
        assert(rest[k - 1] == ls[k]);
        assert forall|j: int| k - 1 < j < rest.len() implies !radeon_name_line(#[trigger] rest[j]) by {
            assert(rest[j] == ls[j + 1]);
        }
        lemma_scan_last_name(rest, next_name, next_vram, k - 1);
    }
}

/// The text after "Radeon " in a line that mentions "Radeon RX" starts with "RX" once trimmed.
proof fn lemma_trimmed_rest_starts_with_rx(line: Seq<char>)
    requires
        contains(line, "Radeon RX"@),
    ensures
        contains(trim(line.skip(find(line, "Radeon RX"@)->0 + 7)), "RX"@),
{
    reveal_strlit("Radeon RX");
    reveal_strlit("RX");
    lemma_find_from_bounds(line, "Radeon RX"@, 0);
    let idx = find(line, "Radeon RX"@)->0;
    let t = line.skip(idx + 7);
    assert(t[0] == 'R' && t[1] == 'X') by {
        assert(line.subrange(idx, idx + 9) == "Radeon RX"@);
        assert(line.subrange(idx, idx + 9)[7] == 'R');
        assert(line.subrange(idx, idx + 9)[8] == 'X');
    }
    assert(!is_space(t[0]));
    assert(leading_spaces(t) == 0);
    let u = trim_start(t);
    assert(u == t);
    lemma_trim_end_keeps_front(u);
    let n = trim(t);
    assert(n[0] == 'R' && n[1] == 'X');
    assert(occurs_at(n, "RX"@, 0)) by {
        assert(n.subrange(0, 2) =~= "RX"@);
    }
    lemma_find_from_bounds(n, "RX"@, 0);
}

/// Trimming the end of a text that starts with two non-space characters keeps them.
proof fn lemma_trim_end_keeps_front(u: Seq<char>)
    requires
        u.len() >= 2,
        !is_space(u[0]),
        u[1] == 'X',
    ensures
        trim_end(u).len() >= 2,
        trim_end(u)[0] == u[0],
        trim_end(u)[1] == u[1],
{
    lemma_trailing_spaces_bound(u);
}

proof fn lemma_trailing_spaces_bound(u: Seq<char>)
    requires
        u.len() >= 2,
        u[1] == 'X',
    ensures
        trailing_spaces(u) <= u.len() - 2,
    decreases u.len(),
{
    if u.len() > 2 && is_space(u.last()) {
        assert(u.drop_last()[1] == 'X');
        lemma_trailing_spaces_bound(u.drop_last());
    } else if u.len() == 2 {
        assert(u.last() == 'X');
    }
}

/// Law: the GPU name reported is that of the last line naming a Radeon RX card, "AMD "
/// followed by the text from "RX" on, whatever the lines before it name.
pub proof fn lemma_last_radeon_name_wins(s: Seq<char>, k: int)
    requires
        0 <= k < lines(s).len(),
        radeon_name_line(lines(s)[k]),
        forall|j: int| k < j < lines(s).len() ==> !radeon_name_line(#[trigger] lines(s)[j]),
    ensures
        rocminfo_summary(Some(s)).0 == "AMD "@ + trim(
            lines(s)[k].skip(find(lines(s)[k], "Radeon RX"@)->0 + 7),
        ),
{
    lemma_scan_last_name(lines(s), Seq::empty(), 0, k);
}

/// Law: with no line naming a Radeon RX card, `rocminfo` gives no name.
pub proof fn lemma_no_radeon_name(s: Seq<char>)
    requires
        forall|j: int| 0 <= j < lines(s).len() ==> !radeon_name_line(#[trigger] lines(s)[j]),
    ensures
        rocminfo_summary(Some(s)).0.len() == 0,
{
    lemma_scan_keeps_name(lines(s), Seq::empty(), 0);
}

proof fn lemma_lines_step(s: Seq<char>)
    requires
        s.len() > 0,
    ensures
        lines(s).len() > 0,
        lines(s)[0] == first_line(s),
        lines(s).drop_first() == lines(after_first_line(s)),
{
    assert((seq![first_line(s)] + lines(after_first_line(s))).drop_first() == lines(
        after_first_line(s),
    ));
}

/// Bounds in `v` of the first line of `v[start..]` (without its line ending), and where the
/// next line starts.
fn next_line(v: &Vec<char>, start: usize) -> (r: (usize, usize))
    requires
        start < v.len(),
    ensures
        start <= r.0 <= r.1 <= v.len(),
        start < r.1,
        v@.subrange(start as int, r.0 as int) == first_line(v@.skip(start as int)),
        v@.skip(r.1 as int) == after_first_line(v@.skip(start as int)),
{
    let ghost s = v@.skip(start as int);
    let nl = vec!['\n'];
    assert(v@.subrange(start as int, v@.len() as int) == s);
    match find_in(v, start, v.len(), &nl) {
        Some(k) => {
            proof {
                lemma_find_from_bounds(s, seq!['\n'], 0);
                assert(nl@ == seq!['\n']);
                assert(newline_index(s) == Some(k as int));
            }
            let mut e = start + k;
            if k > 0 && v[e - 1] == '\r' {
                e = e - 1;
                assert(s.take(k as int).last() == v@[start + k - 1]);
                assert(s.take(k as int).drop_last() == v@.subrange(start as int, e as int));
            } else {
                assert(s.take(k as int) == v@.subrange(start as int, e as int));
            }
            assert(s.skip(k + 1) == v@.skip(start + k + 1));
            (e, start + k + 1)
        },
        None => {
            proof {
                assert(nl@ == seq!['\n']);
                assert(newline_index(s) is None);
            }
            assert(v@.skip(v@.len() as int) == Seq::<char>::empty());
            (v.len(), v.len())
        },
    }
}

/// `size_line_readable` of the line `v[a..b]`.
fn line_readable(v: &Vec<char>, a: usize, b: usize, size_pat: &Vec<char>, kb_pat: &Vec<char>) -> (r:
    bool)
    requires
        a <= b <= v.len(),
        size_pat@ == "Size:"@,
        kb_pat@ == "KB"@,
    ensures
        r == size_line_readable(v@.subrange(a as int, b as int)),
{
    match (find_in(v, a, b, size_pat), find_in(v, a, b, kb_pat)) {
        (Some(i1), Some(i2)) => i1 <= i2 && i2 - i1 >= 5,
        _ => true,
    }
}

/// Whether the output of `rocminfo` can be read (see `rocminfo_readable`).
pub fn rocminfo_is_readable(stdout: &str) -> (r: bool)
    ensures
        r == rocminfo_readable(stdout@),
{
    let v = chars_of(stdout);
    let size_pat = chars_of("Size:");
    let kb_pat = chars_of("KB");
    let mut start: usize = 0;
    assert(v@.skip(0) == v@);
    while start < v.len()
        invariant
            start <= v.len(),
            v@ == stdout@,
            size_pat@ == "Size:"@,
            kb_pat@ == "KB"@,
            rocminfo_readable(stdout@) == all_readable(lines(v@.skip(start as int))),
        decreases v.len() - start,
    {
        let (e, next) = next_line(&v, start);
        proof {
            lemma_lines_step(v@.skip(start as int));
        }
        if !line_readable(&v, start, e, &size_pat, &kb_pat) {
            return false;
        }
        start = next;
    }
    assert(v@.skip(start as int) == Seq::<char>::empty());
    assert(lines(Seq::<char>::empty()) == Seq::<Seq<char>>::empty());
    true
}

/// Name and memory from the line `v[a..b]`, given the ones before.
fn scan_line(
    v: &Vec<char>,
    a: usize,
    b: usize,
    name: String,
    vram: u32,
    pats: &Patterns,
) -> (r: (String, u32))
    requires
        a <= b <= v.len(),
        pats.wf(),
        size_line_readable(v@.subrange(a as int, b as int)),
    ensures
        ({
            let line = v@.subrange(a as int, b as int);
            &&& r.0@ == (match name_from_line(line) {
                Some(n) => n,
                None => name@,
            })
            &&& r.1 == (match vram_from_line(line) {
                Some(m) => m,
                None => vram,
            })
        }),
{
    let ghost line = v@.subrange(a as int, b as int);
    let mut name = name;
    let mut vram = vram;
    let named = contains_in(v, a, b, &pats.marketing) || contains_in(v, a, b, &pats.name);
    let radeon = find_in(v, a, b, &pats.radeon);
    if named {
        if let Some(idx) = radeon {
            proof {
                lemma_find_from_bounds(line, "Radeon RX"@, 0);
                reveal_strlit("Radeon RX");
            }
            let (ta, tb) = trim_bounds(v, a + idx + 7, b);
            assert(v@.subrange(a + idx + 7, b as int) == line.skip(idx + 7));
            let ghost n = trim(line.skip(idx + 7));
            let rx = contains_in(v, ta, tb, &pats.rx);
            let mut out = if rx {
                String::from_str("AMD ")
            } else {
                String::new()
            };
            push_range(&mut out, v, ta, tb);
            name = out;
        }
    }
    if let (Some(i1), Some(i2)) = (find_in(v, a, b, &pats.size), find_in(v, a, b, &pats.kb)) {
        proof {
            lemma_find_from_bounds(line, "Size:"@, 0);
            lemma_find_from_bounds(line, "KB"@, 0);
        }
        let (fa, fb) = trim_bounds(v, a + i1 + 5, a + i2);
        assert(v@.subrange(a + i1 + 5, a + i2) == line.subrange(i1 + 5, i2 as int));
        match parse_u32_in(v, fa, fb) {
            Some(kb) => {
                if kb > 1000000 {
                    vram = kb / 1024;
                }
            },
            None => {},
        }
    }
    (name, vram)
}

/// The search patterns used on `rocminfo` output.
struct Patterns {
    marketing: Vec<char>,
    name: Vec<char>,
    radeon: Vec<char>,
    rx: Vec<char>,
    size: Vec<char>,
    kb: Vec<char>,
}

impl Patterns {
    spec fn wf(&self) -> bool {
        &&& self.marketing@ == "Marketing Name"@
        &&& self.name@ == "Name:"@
        &&& self.radeon@ == "Radeon RX"@
        &&& self.rx@ == "RX"@
        &&& self.size@ == "Size:"@
        &&& self.kb@ == "KB"@
    }

    fn new() -> (p: Patterns)
        ensures
            p.wf(),
    {
        Patterns {
            marketing: chars_of("Marketing Name"),
            name: chars_of("Name:"),
            radeon: chars_of("Radeon RX"),
            rx: chars_of("RX"),
            size: chars_of("Size:"),
            kb: chars_of("KB"),
        }
    }
}

/// Name and memory that the output of `rocminfo` reports.
pub fn scan_rocminfo(stdout: &str) -> (r: (String, u32))
    requires
        rocminfo_readable(stdout@),
    ensures
        (r.0@, r.1) == rocminfo_summary(Some(stdout@)),
{
    let v = chars_of(stdout);
    let pats = Patterns::new();
    let mut name = String::new();
    let mut vram: u32 = 0;
    let mut start: usize = 0;
    assert(v@.skip(0) == v@);
    while start < v.len()
        invariant
            start <= v.len(),
            v@ == stdout@,
            pats.wf(),
            all_readable(lines(v@.skip(start as int))),
            scan_lines(lines(stdout@), Seq::empty(), 0) == scan_lines(
                lines(v@.skip(start as int)),
                name@,
                vram,
            ),
        decreases v.len() - start,
    {
        let (e, next) = next_line(&v, start);
        proof {
            lemma_lines_step(v@.skip(start as int));
        }
        let (n2, m2) = scan_line(&v, start, e, name, vram, &pats);
        name = n2;
        vram = m2;
        start = next;
    }
    assert(v@.skip(start as int) == Seq::<char>::empty());
    assert(lines(Seq::<char>::empty()) == Seq::<Seq<char>>::empty());
    (name, vram)
}

/// What `get_gpu_info` reports, from what the three tools printed: the standard output of
/// `rocminfo` and of `rocm-smi --showtopo` when they ran and succeeded, and that of `lsmod`
/// when it ran.
pub fn gpu_info_from_outputs(
    rocminfo: Option<String>,
    rocm_smi: Option<String>,
    lsmod: Option<String>,
) -> (info: GpuInfo)
    requires
        rocminfo matches Some(s) ==> rocminfo_readable(s@),
    ensures
        info.rocmsmi_available == rocminfo is Some,
        info.driver_loaded == ((rocminfo matches Some(s) && (contains(s@, "AMD Ryzen"@) || contains(
            s@,
            "gfx"@,
        ))) || (lsmod matches Some(l) && contains(l@, "amdgpu"@))),
        info.available == (rocm_smi matches Some(t) && contains(t@, "GPU"@)),
        info.vram_mb == rocminfo_summary(
            match rocminfo {
                Some(s) => Some(s@),
                None => None,
            },
        ).1,
        ({
            let summary_name = rocminfo_summary(
                match rocminfo {
                    Some(s) => Some(s@),
                    None => None,
                },
            ).0;
            info.name@ == (if summary_name.len() == 0 && info.available {
                "AMD GPU"@
            } else {
                summary_name
            })
        }),
{
    let mut info = GpuInfo {
        name: String::new(),
        vram_mb: 0,
        available: false,
        driver_loaded: false,
        rocmsmi_available: false,
    };
    if let Some(out) = &rocminfo {
        info.rocmsmi_available = true;
        if str_contains(out.as_str(), "AMD Ryzen") || str_contains(out.as_str(), "gfx") {
            info.driver_loaded = true;
        }
        let (name, vram) = scan_rocminfo(out.as_str());
        info.name = name;
        info.vram_mb = vram;
    }
    if let Some(out) = &rocm_smi {
        if str_contains(out.as_str(), "GPU") {
            info.available = true;
        }
    }
    if let Some(out) = &lsmod {
        if str_contains(out.as_str(), "amdgpu") {
            info.driver_loaded = true;
        }
    }
    if info.name.as_str().is_empty() && info.available {
        info.name = String::from_str("AMD GPU");
    }
    info
}

} // verus!
