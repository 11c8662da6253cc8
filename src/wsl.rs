use vstd::prelude::*;

use vstd::utf8::{decode_utf8, valid_utf8};

use crate::text::{
    chars_of, owned, push_char, push_str, signed_decimal, signed_decimal_text, trim_text, trimmed,
    utf8_text,
};

verus! {

/// The program that runs `wslpath` inside the Linux subsystem.
pub const WSL_PROGRAM: &'static str = "wsl.exe";

/// Direction of a path conversion.
#[derive(Debug, Clone, Copy, PartialEq, Eq)]
pub enum Conversion {
    /// Convert Windows path to WSL path
    WindowsToWsl,
    /// Convert WSL path to Windows path
    WslToWindows,
    /// Convert WSL path to Windows path using Linux style path separators
    WslToWindowsLinuxStyle,
}

/// The `wslpath` flag for a direction.
pub open spec fn conversion_flag(c: Conversion) -> Seq<char> {
    match c {
        Conversion::WindowsToWsl => seq!['-', 'u'],
        Conversion::WslToWindows => seq!['-', 'w'],
        Conversion::WslToWindowsLinuxStyle => seq!['-', 'm'],
    }
}

/// `s` with each backslash doubled.
pub open spec fn escaped(s: Seq<char>) -> Seq<char>
    decreases s.len(),
{
    if s.len() == 0 {
        Seq::empty()
    } else if s.last() == '\\' {
        escaped(s.drop_last()) + seq!['\\', '\\']
    } else {
        escaped(s.drop_last()).push(s.last())
    }
}

/// The arguments given to `wsl.exe` to convert `path`.
pub open spec fn wslpath_arguments(
    path: Seq<char>,
    options: Conversion,
    force_absolute_path: bool,
    replace_backslash: bool,
) -> Seq<Seq<char>> {
    seq![seq!['-', 'e'], seq!['w', 's', 'l', 'p', 'a', 't', 'h'], conversion_flag(options)] + (if force_absolute_path {
        seq![seq!['-', 'a']]
    } else {
        Seq::empty()
    }) + seq![
        if replace_backslash {
            escaped(path)
        } else {
            path
        },
    ]
}

fn flag_text(c: Conversion) -> (r: String)
    ensures
        r@ == conversion_flag(c),
{
    let mut r = String::new();
    push_char(&mut r, '-');
    push_char(
        &mut r,
        match c {
            Conversion::WindowsToWsl => 'u',
            Conversion::WslToWindows => 'w',
            Conversion::WslToWindowsLinuxStyle => 'm',
        },
    );
    assert(r@ =~= conversion_flag(c));
    r
}

/// `path` with each backslash doubled, as the shell inside WSL expects.
pub fn escape_backslashes(path: &str) -> (r: String)
    ensures
        r@ == escaped(path@),
{
    let cs = chars_of(path);
    let mut r = String::new();
    let mut i: usize = 0;
    while i < cs.len()
        invariant
            i <= cs.len(),
            cs@ == path@,
            r@ == escaped(cs@.take(i as int)),
        decreases cs.len() - i,
    {
        assert(cs@.take(i + 1).drop_last() =~= cs@.take(i as int));
        if cs[i] == '\\' {
            push_char(&mut r, '\\');
            push_char(&mut r, '\\');
            assert(r@ =~= escaped(cs@.take(i as int)) + seq!['\\', '\\']);
        } else {
            push_char(&mut r, cs[i]);
        }
        i = i + 1;
    }
    assert(cs@.take(cs.len() as int) =~= cs@);
    r
}

/// The arguments for one run of `wsl.exe -e wslpath`.
pub fn wslpath_args(
    path: &str,
    options: Conversion,
    force_absolute_path: bool,
    replace_backslash: bool,
) -> (r: Vec<String>)
    ensures
        r@.map_values(|a: String| a@) == wslpath_arguments(
            path@,
            options,
            force_absolute_path,
            replace_backslash,
        ),
{
    let mut args: Vec<String> = Vec::new();
    let mut e = String::new();
    push_char(&mut e, '-');
    push_char(&mut e, 'e');
    assert(e@ =~= seq!['-', 'e']);
    args.push(e);
    let mut w = String::new();
    push_char(&mut w, 'w');
    push_char(&mut w, 's');
    push_char(&mut w, 'l');
    push_char(&mut w, 'p');
    push_char(&mut w, 'a');
    push_char(&mut w, 't');
    push_char(&mut w, 'h');
    assert(w@ =~= seq!['w', 's', 'l', 'p', 'a', 't', 'h']);
    args.push(w);
    args.push(flag_text(options));
    if force_absolute_path {
        let mut a = String::new();
        push_char(&mut a, '-');
        push_char(&mut a, 'a');
        assert(a@ =~= seq!['-', 'a']);
        args.push(a);
    }
    let real_path = if replace_backslash {
        escape_backslashes(path)
    } else {
        owned(path)
    };
    args.push(real_path);
    assert(args@.map_values(|a: String| a@) =~= wslpath_arguments(
        path@,
        options,
        force_absolute_path,
        replace_backslash,
    ));
    args
}

pub const EXIT_CODE_ERROR: &'static str = "Error getting wslpath: ";

pub const OUTPUT_ENCODING_ERROR: &'static str = "Error converting output to string";

/// What one run of `wslpath` yields: for a zero exit status, its output
/// decoded and trimmed; an exit status that is non-zero (or missing,
/// counted as -1) and output that is not UTF-8 are errors.
pub open spec fn wslpath_outcome(code: Option<i32>, stdout: Seq<u8>) -> Result<Seq<char>, Seq<char>> {
    let c: int = match code {
        Some(c) => c as int,
        None => -1,
    };
    if c != 0 {
        Err(EXIT_CODE_ERROR@ + signed_decimal(c))
    } else if !valid_utf8(stdout) {
        Err(OUTPUT_ENCODING_ERROR@)
    } else {
        Ok(trimmed(decode_utf8(stdout)))
    }
}

/// The plain content of a conversion result.
pub open spec fn result_view(r: Result<String, String>) -> Result<Seq<char>, Seq<char>> {
    match r {
        Ok(s) => Ok(s@),
        Err(e) => Err(e@),
    }
}

/// Interprets the exit status and standard output of one run of `wslpath`.
pub fn wslpath_output(code: Option<i32>, stdout: Vec<u8>) -> (r: Result<String, String>)
    ensures
        result_view(r) == wslpath_outcome(code, stdout@),
{
    let c: i32 = match code {
        Some(c) => c,
        None => -1,
    };
    if c != 0 {
        let mut e = owned(EXIT_CODE_ERROR);
        let digits = signed_decimal_text(c);
        push_str(&mut e, digits.as_str());
        return Err(e);
    }
    match utf8_text(stdout) {
        None => Err(owned(OUTPUT_ENCODING_ERROR)),
        Some(text) => Ok(trim_text(text.as_str())),
    }
}

/// A path conversion in progress. The first run doubles backslashes; if
/// it fails, one more run passes the path as it is, and if that fails too
/// the error of the first run is reported.
pub struct PathConversion {
    path: String,
    options: Conversion,
    first_error: Option<String>,
}

impl PathConversion {
    /// The path being converted.
    pub closed spec fn source(&self) -> Seq<char> {
        self.path@
    }

    /// The direction of the conversion.
    pub closed spec fn direction(&self) -> Conversion {
        self.options
    }

    /// The error of the first run, once it has failed.
    pub closed spec fn first_failure(&self) -> Option<Seq<char>> {
        match self.first_error {
            Some(e) => Some(e@),
            None => None,
        }
    }

    /// The arguments of the run that is due, as the conversion stands.
    pub open spec fn due_arguments(&self) -> Seq<Seq<char>> {
        wslpath_arguments(self.source(), self.direction(), false, self.first_failure() is None)
    }

    fn begin(path: &str, options: Conversion) -> (r: PathConversion)
        ensures
            r.source() == path@,
            r.direction() == options,
            r.first_failure() is None,
    {
        PathConversion { path: owned(path), options, first_error: None }
    }

    /// The arguments for `wsl.exe` of the run that is due.
    pub fn args(&self) -> (r: Vec<String>)
        ensures
            r@.map_values(|a: String| a@) == self.due_arguments(),
    {
        wslpath_args(self.path.as_str(), self.options, false, self.first_error.is_none())
    }

    /// Takes the outcome of the run that is due. Returns the final result,
    /// or `None` when one more run is due (then `args` gives it).
    pub fn advance(&mut self, outcome: Result<String, String>) -> (r: Option<Result<String, String>>)
        ensures
            final(self).source() == old(self).source(),
            final(self).direction() == old(self).direction(),
            match outcome {
                Ok(p) => r == Some(Ok::<String, String>(p)) && final(self).first_failure()
                    == old(self).first_failure(),
                Err(e) => match old(self).first_failure() {
                    None => r is None && final(self).first_failure() == Some(e@),
                    Some(first) => (r matches Some(Err(f)) && f@ == first)
                        && final(self).first_failure() == Some(first),
                },
            },
    {
        match outcome {
            Ok(p) => Some(Ok(p)),
            Err(e) => match &self.first_error {
                None => {
                    self.first_error = Some(e);
                    None
                },
                Some(first) => Some(Err(first.clone())),
            },
        }
    }
}

/// Starts converting a Windows path into its WSL form.
pub fn windows_to_wsl_path(path: &str) -> (r: PathConversion)
    ensures
        r.source() == path@,
        r.direction() == Conversion::WindowsToWsl,
        r.first_failure() is None,
{
    PathConversion::begin(path, Conversion::WindowsToWsl)
}

/// Starts converting a WSL path into its Windows form.
pub fn wsl_to_windows_path(path: &str) -> (r: PathConversion)
    ensures
        r.source() == path@,
        r.direction() == Conversion::WslToWindows,
        r.first_failure() is None,
{
    PathConversion::begin(path, Conversion::WslToWindows)
}

} // verus!
