//! The boot-loader bank variables.
//!
//! The boot loader keeps three bank-valued variables in its
//! environment.  An external tool prints `name=value` lines and a
//! second tool applies a one-line assignment script; the library
//! renders that script and reads a bank out of the printed output.

use vstd::prelude::*;

use crate::bank::Bank;
use crate::errors::UpdaterError;
use crate::mount_table::matches_pat_at;

verus! {

/// The boot-loader variables that hold a bank name.
pub enum UBootBankVariable {
    /// The bank to boot next.
    Desired,
    /// The bank the boot loader last tried.
    LastTried,
    /// The bank last known to boot successfully.
    LastOk,
}

impl UBootBankVariable {
    /// The variable's name in the boot-loader environment.
    pub open spec fn spec_env_var_name(self) -> Seq<char> {
        match self {
            UBootBankVariable::Desired => "desired_bank"@,
            UBootBankVariable::LastTried => "last_tried_bank"@,
            UBootBankVariable::LastOk => "last_ok_bank"@,
        }
    }

    /// Returns the variable's name in the boot-loader environment.
    pub fn env_var_name(&self) -> (r: &'static str)
        ensures
            r@ == self.spec_env_var_name(),
    {
        match self {
            UBootBankVariable::Desired => "desired_bank",
            UBootBankVariable::LastTried => "last_tried_bank",
            UBootBankVariable::LastOk => "last_ok_bank",
        }
    }
}

/// The bank assigned at position `i` of the tool's output, or `None`
/// when `pat` (the variable's name and `=`) followed by a bank letter
/// does not stand there.
pub open spec fn assignment_at(s: Seq<char>, pat: Seq<char>, i: int) -> Option<Bank> {
    if 0 <= i && i + pat.len() + 1 <= s.len() && s.subrange(i, i + pat.len() as int) == pat {
        if s[i + pat.len()] == 'A' {
            Some(Bank::A)
        } else if s[i + pat.len()] == 'B' {
            Some(Bank::B)
        } else {
            None
        }
    } else {
        None
    }
}

/// The text a bank assignment for `v` starts with: the variable's
/// name and `=`.
pub open spec fn var_pattern(v: UBootBankVariable) -> Seq<char> {
    v.spec_env_var_name() + "="@
}

/// No bank assignment for `pat` starts before position `n`.
pub open spec fn no_assignment_before(s: Seq<char>, pat: Seq<char>, n: int) -> bool {
    forall|k: int| 0 <= k < n ==> assignment_at(s, pat, k) is None
}

/// Reads a bank out of the printing tool's output: the first
/// `name=A` or `name=B` for the given variable decides.  Output
/// without such an assignment gives `BootLoaderError`.
pub fn parse_bank_variable(variable: &UBootBankVariable, output: &str) -> (r: Result<
    Bank,
    UpdaterError,
>)
    ensures
        match r {
            Ok(b) => exists|i: int|
                #[trigger] no_assignment_before(output@, var_pattern(*variable), i)
                    && assignment_at(output@, var_pattern(*variable), i) == Some(b),
            Err(e) => e == UpdaterError::BootLoader && forall|i: int|
                assignment_at(output@, var_pattern(*variable), i) is None,
        },
{
    let ghost pat = var_pattern(*variable);
    let pattern = String::from_str(variable.env_var_name()).concat("=");
    proof {
        assert(pattern@ == pat);
    }
    let n = output.unicode_len();
    let m = pattern.as_str().unicode_len();
    if n <= m {
        proof {
            assert forall|i: int| assignment_at(output@, pat, i) is None by {}
        }
        return Err(UpdaterError::BootLoader);
    }
    let last = n - m;
    let mut i: usize = 0;
    while i < last
        invariant
            i <= last,
            n == output@.len(),
            m == pat.len(),
            last == n - m,
            pattern@ == pat,
            pat == var_pattern(*variable),
            no_assignment_before(output@, pat, i as int),
        decreases last - i,
    {
        let hit = matches_pat_at(output, i, pattern.as_str());
        if hit {
            let c = output.get_char(i + m);
            if c == 'A' {
                proof {
                    assert(no_assignment_before(output@, pat, i as int));
                    assert(assignment_at(output@, pat, i as int) == Some(Bank::A));
                }
                return Ok(Bank::A);
            } else if c == 'B' {
                proof {
                    assert(no_assignment_before(output@, pat, i as int));
                    assert(assignment_at(output@, pat, i as int) == Some(Bank::B));
                }
                return Ok(Bank::B);
            }
        }
        proof {
            assert(assignment_at(output@, pat, i as int) is None);
        }
        i += 1;
    }
    proof {
        assert forall|i2: int| assignment_at(output@, pat, i2) is None by {
            if 0 <= i2 && i2 + pat.len() + 1 <= output@.len() {
                assert(i2 < last);
            }
        }
    }
    Err(UpdaterError::BootLoader)
}

/// The one-line script handed to the setter tool: the variable's name,
/// `=`, and the bank's name.
pub fn render_setenv_script(variable: &UBootBankVariable, bank: Bank) -> (r: String)
    ensures
        r@ == variable.spec_env_var_name() + "="@ + bank.spec_name(),
{
    let mut script = String::from_str(variable.env_var_name());
    script.append("=");
    script.append(bank.name());
    script
}

/// The file the assignment script is written to before the setter tool
/// runs on it.
pub fn setenv_script_filename() -> (r: &'static str)
    ensures
        r@ == "ubootfw.script"@,
{
    "ubootfw.script"
}

} // verus!
