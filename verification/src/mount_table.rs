//! Reading and writing the mount table.
//!
//! The active bank is the one whose device is mounted at `/` with
//! filesystem type ext4.  `detect` finds that entry in the text of a
//! mount table; `render_fstab` produces the fixed four-line table that
//! prepares a given bank to boot.  Entries are recognized at line
//! starts: a root entry is the bank's device path, at least one space,
//! `/`, at least one space, and `ext4`.

use vstd::prelude::*;

use crate::bank::Bank;
use crate::errors::UpdaterError;

verus! {

/// The first position at or after `i` that does not hold a space
/// (`s.len()` if spaces run to the end).
pub open spec fn space_run_end(s: Seq<char>, i: int) -> int
    decreases s.len() - i,
{
    if i < 0 || i >= s.len() {
        i
    } else if s[i] == ' ' {
        space_run_end(s, i + 1)
    } else {
        i
    }
}

/// The bank owning a root-entry partition digit, if any.
pub open spec fn digit_bank(c: char) -> Option<Bank> {
    if c == '2' {
        Some(Bank::A)
    } else if c == '3' {
        Some(Bank::B)
    } else {
        None
    }
}

/// The bank named by a root entry that starts at position `i` of the
/// table, or `None` when no root entry starts there.  A root entry is a
/// bank device path, one or more spaces, `/`, one or more spaces, and
/// `ext4`.
pub open spec fn entry_bank_at(s: Seq<char>, i: int) -> Option<Bank> {
    let j = space_run_end(s, i + 14);
    let k = space_run_end(s, j + 1);
    if ({
        &&& 0 <= i
        &&& i + 14 <= s.len()
        &&& s.subrange(i, i + 13) == "/dev/mmcblk0p"@
        &&& digit_bank(s[i + 13]) is Some
        &&& j > i + 14
        &&& j < s.len()
        &&& s[j] == '/'
        &&& k > j + 1
        &&& k + 4 <= s.len()
        &&& s.subrange(k, k + 4) == "ext4"@
    }) {
        digit_bank(s[i + 13])
    } else {
        None
    }
}

/// Whether position `i` begins a line of the table.
pub open spec fn line_start(s: Seq<char>, i: int) -> bool {
    i == 0 || (0 < i <= s.len() && s[i - 1] == '\n')
}

/// Whether a root entry stands at the beginning of the line that starts
/// at position `i`.
pub open spec fn root_entry_at(s: Seq<char>, i: int) -> bool {
    line_start(s, i) && entry_bank_at(s, i) is Some
}

/// No root entry starts before position `n` of the table.
pub open spec fn no_entry_before(s: Seq<char>, n: int) -> bool {
    forall|k: int| 0 <= k < n ==> !root_entry_at(s, k)
}

/// Returns the end of the space run starting at `i`.
fn space_run_end_exec(s: &str, i: usize) -> (j: usize)
    requires
        i <= s@.len(),
    ensures
        j as int == space_run_end(s@, i as int),
        i <= j <= s@.len(),
{
    let n = s.unicode_len();
    let mut j = i;
    while j < n
        invariant
            i <= j <= n,
            n == s@.len(),
            space_run_end(s@, i as int) == space_run_end(s@, j as int),
        decreases n - j,
    {
        if s.get_char(j) != ' ' {
            return j;
        }
        j += 1;
    }
    j
}

/// Returns whether `pat` stands at position `i` of `s`.
pub(crate) fn matches_pat_at(s: &str, i: usize, pat: &str) -> (r: bool)
    requires
        i + pat@.len() <= s@.len(),
    ensures
        r <==> s@.subrange(i as int, i as int + pat@.len() as int) == pat@,
{
    let n = s.unicode_len();
    let m = pat.unicode_len();
    let mut t: usize = 0;
    while t < m
        invariant
            t <= m,
            m == pat@.len(),
            n == s@.len(),
            i + m <= n,
            forall|q: int| 0 <= q < t ==> s@[i + q] == pat@[q],
        decreases m - t,
    {
        if s.get_char(i + t) != pat.get_char(t) {
            proof {
                let sub = s@.subrange(i as int, i as int + m as int);
                assert(sub[t as int] != pat@[t as int]);
            }
            return false;
        }
        t += 1;
    }
    proof {
        assert(s@.subrange(i as int, i as int + m as int) =~= pat@);
    }
    true
}

/// Returns the bank of the root entry starting at position `i`, or
/// `None` when none starts there.
fn entry_bank_at_exec(s: &str, i: usize) -> (r: Option<Bank>)
    requires
        i < s@.len(),
    ensures
        r == entry_bank_at(s@, i as int),
{
    let n = s.unicode_len();
    proof {
        reveal_strlit("/dev/mmcblk0p");
        reveal_strlit("ext4");
    }
    if n - i < 14 {
        return None;
    }
    if !matches_pat_at(s, i, "/dev/mmcblk0p") {
        return None;
    }
    let d = s.get_char(i + 13);
    let bank = if d == '2' {
        Bank::A
    } else if d == '3' {
        Bank::B
    } else {
        return None;
    };
    let j = space_run_end_exec(s, i + 14);
    if j == i + 14 || j == n {
        return None;
    }
    if s.get_char(j) != '/' {
        return None;
    }
    let k = space_run_end_exec(s, j + 1);
    if k == j + 1 || n - k < 4 {
        return None;
    }
    if !matches_pat_at(s, k, "ext4") {
        return None;
    }
    Some(bank)
}

/// Finds the active bank in the text of a mount table: the bank whose
/// device is mounted at `/` with filesystem type ext4.  The first root
/// entry of the table decides; a table without a root entry gives
/// `DetectionError`.
pub fn detect(table: &str) -> (r: Result<Bank, UpdaterError>)
    ensures
        match r {
            Ok(b) => exists|i: int|
                #[trigger] root_entry_at(table@, i) && no_entry_before(table@, i)
                    && entry_bank_at(table@, i) == Some(b),
            Err(e) => e == UpdaterError::Detection && no_entry_before(
                table@,
                table@.len() as int,
            ),
        },
{
    let n = table.unicode_len();
    let mut i: usize = 0;
    let mut at_start: bool = true;
    while i < n
        invariant
            i <= n,
            n == table@.len(),
            at_start == line_start(table@, i as int),
            no_entry_before(table@, i as int),
        decreases n - i,
    {
        if at_start {
            match entry_bank_at_exec(table, i) {
                Some(b) => {
                    proof {
                        assert(root_entry_at(table@, i as int));
                    }
                    return Ok(b);
                },
                None => {},
            }
        }
        let c = table.get_char(i);
        at_start = c == '\n';
        i += 1;
    }
    Err(UpdaterError::Detection)
}

/// The mount table that boots bank `b`: `b`'s device is the root
/// filesystem and the other bank's device is the auxiliary
/// `/mnt/other_bank` mount.
pub open spec fn spec_fstab(b: Bank) -> Seq<char> {
    match b {
        Bank::A => "proc            /proc           proc    defaults          0       0\n/dev/mmcblk0p1  /boot           vfat    defaults          0       2\n/dev/mmcblk0p3  /mnt/other_bank ext4    noauto,noatime    0       0\n/dev/mmcblk0p2  /               ext4    defaults,noatime  0       1\n"@,
        Bank::B => "proc            /proc           proc    defaults          0       0\n/dev/mmcblk0p1  /boot           vfat    defaults          0       2\n/dev/mmcblk0p2  /mnt/other_bank ext4    noauto,noatime    0       0\n/dev/mmcblk0p3  /               ext4    defaults,noatime  0       1\n"@,
    }
}

/// Renders the mount table that prepares bank `bank` to boot.  The
/// table differs between the banks only in which device is root and
/// which is the auxiliary mount.
pub fn render_fstab(bank: Bank) -> (r: &'static str)
    ensures
        r@ == spec_fstab(bank),
{
    match bank {
        Bank::A => "proc            /proc           proc    defaults          0       0\n/dev/mmcblk0p1  /boot           vfat    defaults          0       2\n/dev/mmcblk0p3  /mnt/other_bank ext4    noauto,noatime    0       0\n/dev/mmcblk0p2  /               ext4    defaults,noatime  0       1\n",
        Bank::B => "proc            /proc           proc    defaults          0       0\n/dev/mmcblk0p1  /boot           vfat    defaults          0       2\n/dev/mmcblk0p2  /mnt/other_bank ext4    noauto,noatime    0       0\n/dev/mmcblk0p3  /               ext4    defaults,noatime  0       1\n",
    }
}

/// The end of a run of spaces is the first position after it that does
/// not hold a space.
proof fn lemma_space_run_value(s: Seq<char>, i: int, j: int)
    requires
        0 <= i <= j <= s.len(),
        forall|t: int| i <= t < j ==> s[t] == ' ',
        j < s.len() ==> s[j] != ' ',
    ensures
        space_run_end(s, i) == j,
    decreases j - i,
{
    if i < j {
        lemma_space_run_value(s, i + 1, j);
    }
}

/// The table rendered for a bank identifies that bank when read back:
/// its one root entry names the bank's own device.  Together with the
/// contract of `detect`, reading back `render_fstab(b)` yields `Ok(b)`.
pub proof fn lemma_fstab_round_trip(b: Bank)
    ensures
        exists|i: int|
            #[trigger] root_entry_at(spec_fstab(b), i) && no_entry_before(spec_fstab(b), i)
                && entry_bank_at(spec_fstab(b), i) == Some(b),
        forall|i: int|
            #[trigger] root_entry_at(spec_fstab(b), i) && no_entry_before(spec_fstab(b), i)
                ==> entry_bank_at(spec_fstab(b), i) == Some(b),
{
    reveal_strlit("/dev/mmcblk0p");
    reveal_strlit("ext4");
    reveal_strlit(
        "proc            /proc           proc    defaults          0       0\n/dev/mmcblk0p1  /boot           vfat    defaults          0       2\n/dev/mmcblk0p3  /mnt/other_bank ext4    noauto,noatime    0       0\n/dev/mmcblk0p2  /               ext4    defaults,noatime  0       1\n",
    );
    reveal_strlit(
        "proc            /proc           proc    defaults          0       0\n/dev/mmcblk0p1  /boot           vfat    defaults          0       2\n/dev/mmcblk0p2  /mnt/other_bank ext4    noauto,noatime    0       0\n/dev/mmcblk0p3  /               ext4    defaults,noatime  0       1\n",
    );
    let t = spec_fstab(b);
    assert(t.len() == 272);
    // The root entry of the template stands at position 204.
    assert(t.subrange(204, 217) =~= "/dev/mmcblk0p"@);
    assert(digit_bank(t[217]) == Some(b));
    assert(forall|u: int| 218 <= u < 220 ==> t[u] == ' ');
    lemma_space_run_value(t, 218, 220);
    assert(t[220] == '/');
    assert(forall|u: int| 221 <= u < 236 ==> t[u] == ' ');
    lemma_space_run_value(t, 221, 236);
    assert(t.subrange(236, 240) =~= "ext4"@);
    assert(entry_bank_at(t, 204) == Some(b));
    assert(root_entry_at(t, 204));
    // No root entry stands earlier: lines start only at 0, 68 and 136
    // before it, and none of those lines is a root entry.
    assert(forall|m: int| 0 <= m < 203 && t[m] == '\n' ==> m == 67 || m == 135);
    assert(t.subrange(0, 13)[0] == t[0]);
    assert(entry_bank_at(t, 0) is None);
    assert(digit_bank(t[81]) is None);
    assert(entry_bank_at(t, 68) is None);
    assert(forall|u: int| 150 <= u < 152 ==> t[u] == ' ');
    lemma_space_run_value(t, 150, 152);
    assert(t[152] == '/');
    assert(t[153] != ' ');
    lemma_space_run_value(t, 153, 153);
    assert(space_run_end(t, 153) == 153);
    assert(entry_bank_at(t, 136) is None);
    assert forall|k: int| 0 <= k < 204 implies !root_entry_at(t, k) by {
        if root_entry_at(t, k) {
            assert(line_start(t, k));
            assert(k == 0 || t[k - 1] == '\n');
            assert(k == 0 || k == 68 || k == 136);
        }
    }
    assert(no_entry_before(t, 204));
}

} // verus!
