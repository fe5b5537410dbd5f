//! The bank-status snapshot.
//!
//! The snapshot names the booted bank, the boot-loader's desired bank
//! when it could be read, and the version and extraction markers of
//! both banks when their marker files exist.  The caller reads markers
//! and the boot-loader variable and hands the plain values in; the
//! library assembles and trims them.

use vstd::prelude::*;

use crate::bank::Bank;

verus! {

/// What a bank-status snapshot says, at the specification level.
pub ghost struct BankInfoView {
    pub our_bank: Bank,
    pub desired_bank: Option<Bank>,
    pub our_version: Option<Seq<char>>,
    pub our_extract_time: Option<Seq<char>>,
    pub other_version: Option<Seq<char>>,
    pub other_extract_time: Option<Seq<char>>,
}

/// The cached bank-status snapshot: which bank is booted, which bank
/// the boot loader wants next (when readable), and both banks' marker
/// contents (when present).
#[derive(Debug)]
pub struct DetectedBankInfo {
    pub our_bank: Bank,
    pub desired_bank: Option<Bank>,
    pub our_version: Option<String>,
    pub our_extract_time: Option<String>,
    pub other_version: Option<String>,
    pub other_extract_time: Option<String>,
}

impl View for DetectedBankInfo {
    type V = BankInfoView;

    open spec fn view(&self) -> BankInfoView {
        BankInfoView {
            our_bank: self.our_bank,
            desired_bank: self.desired_bank,
            our_version: self.our_version.deep_view(),
            our_extract_time: self.our_extract_time.deep_view(),
            other_version: self.other_version.deep_view(),
            other_extract_time: self.other_extract_time.deep_view(),
        }
    }
}

/// Copies an optional marker value.
fn clone_opt_string(o: &Option<String>) -> (r: Option<String>)
    ensures
        r.deep_view() == o.deep_view(),
{
    match o {
        None => None,
        Some(s) => Some(s.clone()),
    }
}

impl DetectedBankInfo {
    /// An equal snapshot, for replying without giving the cache up.
    pub fn duplicate(&self) -> (r: DetectedBankInfo)
        ensures
            r@ == self@,
    {
        DetectedBankInfo {
            our_bank: self.our_bank,
            desired_bank: self.desired_bank,
            our_version: clone_opt_string(&self.our_version),
            our_extract_time: clone_opt_string(&self.our_extract_time),
            other_version: clone_opt_string(&self.other_version),
            other_extract_time: clone_opt_string(&self.other_extract_time),
        }
    }
}

/// Builds the snapshot from what was read while the other bank was
/// mounted: `mounted_bank` is the bank behind the mount, so the booted
/// bank is the one across from it.
pub fn detect_bank_info(
    mounted_bank: Bank,
    desired_bank: Option<Bank>,
    our_version: Option<String>,
    our_extract_time: Option<String>,
    other_version: Option<String>,
    other_extract_time: Option<String>,
) -> (r: DetectedBankInfo)
    ensures
        r@.our_bank == mounted_bank.spec_other(),
        r@.desired_bank == desired_bank,
        r@.our_version == our_version.deep_view(),
        r@.our_extract_time == our_extract_time.deep_view(),
        r@.other_version == other_version.deep_view(),
        r@.other_extract_time == other_extract_time.deep_view(),
{
    DetectedBankInfo {
        our_bank: mounted_bank.other(),
        desired_bank,
        our_version,
        our_extract_time,
        other_version,
        other_extract_time,
    }
}

/// The marker file naming the build of a bank's image.
pub fn version_marker_filename() -> (r: &'static str)
    ensures
        r@ == "image_built_at.txt"@,
{
    "image_built_at.txt"
}

/// The marker file naming when a bank's image was extracted.
pub fn extracted_marker_filename() -> (r: &'static str)
    ensures
        r@ == "extracted_at.txt"@,
{
    "extracted_at.txt"
}

/// Whether `c` is blank: a space, tab or line break.
pub open spec fn is_blank(c: char) -> bool {
    c == ' ' || c == '\t' || c == '\n' || c == '\r'
}

/// The first position at or after `i` holding something other than a
/// blank character.
pub open spec fn blank_run_end(s: Seq<char>, i: int) -> int
    decreases s.len() - i,
{
    if i < 0 || i >= s.len() {
        i
    } else if is_blank(s[i]) {
        blank_run_end(s, i + 1)
    } else {
        i
    }
}

/// The position after the last non-blank character at or before
/// position `i - 1`, or 0 when everything before `i` is blank.
pub open spec fn blank_run_start(s: Seq<char>, i: int) -> int
    decreases i,
{
    if i <= 0 || i > s.len() {
        i
    } else if is_blank(s[i - 1]) {
        blank_run_start(s, i - 1)
    } else {
        i
    }
}

/// `s` without leading and trailing blanks: what a marker file's single
/// line says.
pub open spec fn spec_trim(s: Seq<char>) -> Seq<char> {
    let a = blank_run_end(s, 0);
    let b = blank_run_start(s, s.len() as int);
    if a < b {
        s.subrange(a, b)
    } else {
        Seq::empty()
    }
}

/// Returns whether `c` is blank.
fn is_blank_exec(c: char) -> (r: bool)
    ensures
        r == is_blank(c),
{
    c == ' ' || c == '\t' || c == '\n' || c == '\r'
}

/// Returns the end of the blank run starting at `i`.
fn blank_run_end_exec(s: &str, i: usize) -> (j: usize)
    requires
        i <= s@.len(),
    ensures
        j as int == blank_run_end(s@, i as int),
        i <= j <= s@.len(),
{
    let n = s.unicode_len();
    let mut j = i;
    while j < n
        invariant
            i <= j <= n,
            n == s@.len(),
            blank_run_end(s@, i as int) == blank_run_end(s@, j as int),
        decreases n - j,
    {
        if !is_blank_exec(s.get_char(j)) {
            return j;
        }
        j += 1;
    }
    j
}

/// Returns the start of the blank run ending just before `i`.
fn blank_run_start_exec(s: &str, i: usize) -> (j: usize)
    requires
        i <= s@.len(),
    ensures
        j as int == blank_run_start(s@, i as int),
        j <= i,
{
    let mut j = i;
    while j > 0
        invariant
            j <= i <= s@.len(),
            blank_run_start(s@, i as int) == blank_run_start(s@, j as int),
        decreases j,
    {
        if !is_blank_exec(s.get_char(j - 1)) {
            return j;
        }
        j -= 1;
    }
    j
}

/// Strips leading and trailing blanks from a marker file's content.
pub fn trimmed(s: &str) -> (r: String)
    ensures
        r@ == spec_trim(s@),
{
    let n = s.unicode_len();
    let a = blank_run_end_exec(s, 0);
    let b = blank_run_start_exec(s, n);
    if a < b {
        String::from_str(s.substring_char(a, b))
    } else {
        String::new()
    }
}

} // verus!
