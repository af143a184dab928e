//! Distribution identity and the error classifications shared by every
//! call-boundary: in-process command invocation and the exit-code protocol of
//! the privileged reinstall child.

use vstd::prelude::*;

verus! {

/// The installed distribution, as far as this tool can tell.
#[derive(Debug, Clone, Copy, PartialEq, Eq, Structural)]
pub enum Distribution {
    Fedora,
    Unknown,
}

impl Distribution {
    /// The human-readable label given to a firmware boot entry.
    pub fn loader_name(&self) -> (r: &'static str)
        ensures
            *self == Distribution::Fedora ==> r@ == "Fedora"@,
            *self == Distribution::Unknown ==> r@ == "Linux Loader"@,
    {
        match self {
            Distribution::Fedora => "Fedora",
            Distribution::Unknown => "Linux Loader",
        }
    }

    /// The name passed to the reinstall child process.
    pub open spec fn name_spec(self) -> Seq<char> {
        match self {
            Distribution::Fedora => "Fedora"@,
            Distribution::Unknown => "Linux"@,
        }
    }

    /// The string form of the distribution: `Fedora` or `Linux`.
    pub fn to_string(&self) -> (r: String)
        ensures
            r@ == self.name_spec(),
    {
        match self {
            Distribution::Fedora => String::from_str("Fedora"),
            Distribution::Unknown => String::from_str("Linux"),
        }
    }

    /// Parses the string form; only `Fedora` is recognised.
    pub fn from_str(s: &str) -> (r: Result<Distribution, ()>)
        ensures
            s@ == "Fedora"@ <==> r == Ok::<Distribution, ()>(Distribution::Fedora),
            s@ != "Fedora"@ <==> r is Err,
    {
        let fedora = String::from_str("Fedora");
        let given = String::from_str(s);
        if given == fedora {
            Ok(Distribution::Fedora)
        } else {
            Err(())
        }
    }
}

/// How spawning an external program failed, before it could run.
#[derive(Debug, Clone, Copy, PartialEq, Eq, Structural)]
pub enum SpawnFailure {
    /// The executable does not exist.
    NotFound,
    /// Access control refused to run it.
    PermissionDenied,
    /// Any other reason.
    Other,
}

/// What a finished program left behind: its exit code (absent when it was
/// killed by a signal) and its captured standard output.
#[derive(Debug)]
pub struct ProcessOutput {
    pub code: Option<i32>,
    pub stdout: Vec<u8>,
}

/// Why a directly spawned command failed.
#[derive(Debug, Clone, Copy, PartialEq, Eq, Structural)]
pub enum CallError {
    ProgramError,
    NotFound,
    PermissionDenied,
    OtherError,
}

/// The classification of a spawn failure.
pub open spec fn spawn_error(f: SpawnFailure) -> CallError {
    match f {
        SpawnFailure::NotFound => CallError::NotFound,
        SpawnFailure::PermissionDenied => CallError::PermissionDenied,
        SpawnFailure::Other => CallError::OtherError,
    }
}

/// The classification of a process outcome: success exactly on exit code 0.
pub open spec fn status_result(res: Result<Option<i32>, SpawnFailure>) -> Result<(), CallError> {
    match res {
        Ok(Some(code)) => if code == 0 {
            Ok(())
        } else {
            Err(CallError::ProgramError)
        },
        Ok(None) => Err(CallError::ProgramError),
        Err(f) => Err(spawn_error(f)),
    }
}

impl CallError {
    fn from_spawn(f: SpawnFailure) -> (r: CallError)
        ensures
            r == spawn_error(f),
    {
        match f {
            SpawnFailure::NotFound => CallError::NotFound,
            SpawnFailure::PermissionDenied => CallError::PermissionDenied,
            SpawnFailure::Other => CallError::OtherError,
        }
    }

    /// Classifies the exit status of a program, or the reason it could not
    /// be started.
    pub fn from_res(res: Result<Option<i32>, SpawnFailure>) -> (r: Result<(), CallError>)
        ensures
            r == status_result(res),
    {
        match res {
            Ok(Some(code)) => if code == 0 {
                Ok(())
            } else {
                Err(CallError::ProgramError)
            },
            Ok(None) => Err(CallError::ProgramError),
            Err(f) => Err(CallError::from_spawn(f)),
        }
    }

    /// Classifies a program run whose output was captured; the output is
    /// handed back untouched on success.
    pub fn from_output(res: Result<ProcessOutput, SpawnFailure>) -> (r: Result<ProcessOutput, CallError>)
        ensures
            match res {
                Ok(out) => if out.code == Some(0i32) {
                    r == Ok::<ProcessOutput, CallError>(out)
                } else {
                    r == Err::<ProcessOutput, CallError>(CallError::ProgramError)
                },
                Err(f) => r == Err::<ProcessOutput, CallError>(spawn_error(f)),
            },
    {
        match res {
            Ok(out) => {
                match out.code {
                    Some(code) => if code == 0 {
                        Ok(out)
                    } else {
                        Err(CallError::ProgramError)
                    },
                    None => Err(CallError::ProgramError),
                }
            },
            Err(f) => Err(CallError::from_spawn(f)),
        }
    }
}

/// The first exit code of the reinstall child's error protocol.
pub const REINSTALL_CODE_BASE: i32 = 166;

/// Why the reinstall child failed, as carried across the process boundary by
/// its exit code: `REINSTALL_CODE_BASE` plus the variant's position.
#[derive(Debug, Clone, Copy, PartialEq, Eq, Structural)]
pub enum ReinstallError {
    ProgramError,
    NotFound,
    PermissionDenied,
    OtherError,
}

/// The exit code that carries an error.
pub open spec fn code_of(e: ReinstallError) -> i32 {
    match e {
        ReinstallError::ProgramError => 166,
        ReinstallError::NotFound => 167,
        ReinstallError::PermissionDenied => 168,
        ReinstallError::OtherError => 169,
    }
}

/// The outcome that an exit code reports: 0 is success, a code of the
/// protocol's range is its error, and anything else (including no code at
/// all) is `OtherError`.
pub open spec fn decoded(code: Option<i32>) -> Result<(), ReinstallError> {
    match code {
        Some(c) => if c == 0 {
            Ok(())
        } else if c == 166 {
            Err(ReinstallError::ProgramError)
        } else if c == 167 {
            Err(ReinstallError::NotFound)
        } else if c == 168 {
            Err(ReinstallError::PermissionDenied)
        } else {
            Err(ReinstallError::OtherError)
        },
        None => Err(ReinstallError::OtherError),
    }
}

/// The same classification on both sides of the process boundary.
pub open spec fn reinstall_error_of(e: CallError) -> ReinstallError {
    match e {
        CallError::ProgramError => ReinstallError::ProgramError,
        CallError::NotFound => ReinstallError::NotFound,
        CallError::PermissionDenied => ReinstallError::PermissionDenied,
        CallError::OtherError => ReinstallError::OtherError,
    }
}

impl ReinstallError {
    /// The exit code with which the child reports this error.
    pub fn exit_code(&self) -> (r: i32)
        ensures
            r == code_of(*self),
            REINSTALL_CODE_BASE <= r < REINSTALL_CODE_BASE + 4,
    {
        match self {
            ReinstallError::ProgramError => REINSTALL_CODE_BASE,
            ReinstallError::NotFound => REINSTALL_CODE_BASE + 1,
            ReinstallError::PermissionDenied => REINSTALL_CODE_BASE + 2,
            ReinstallError::OtherError => REINSTALL_CODE_BASE + 3,
        }
    }

    /// Decodes the child's exit code (absent when it was killed by a signal).
    pub fn from_res(code: Option<i32>) -> (r: Result<(), ReinstallError>)
        ensures
            r == decoded(code),
    {
        match code {
            Some(c) => if c == 0 {
                Ok(())
            } else if c == REINSTALL_CODE_BASE {
                Err(ReinstallError::ProgramError)
            } else if c == REINSTALL_CODE_BASE + 1 {
                Err(ReinstallError::NotFound)
            } else if c == REINSTALL_CODE_BASE + 2 {
                Err(ReinstallError::PermissionDenied)
            } else {
                Err(ReinstallError::OtherError)
            },
            None => Err(ReinstallError::OtherError),
        }
    }
}

impl From<CallError> for ReinstallError {
    fn from(err: CallError) -> (r: ReinstallError)
        ensures
            r == reinstall_error_of(err),
    {
        match err {
            CallError::ProgramError => ReinstallError::ProgramError,
            CallError::NotFound => ReinstallError::NotFound,
            CallError::PermissionDenied => ReinstallError::PermissionDenied,
            CallError::OtherError => ReinstallError::OtherError,
        }
    }
}

impl vstd::std_specs::convert::FromSpecImpl<CallError> for ReinstallError {
    open spec fn obeys_from_spec() -> bool {
        true
    }

    open spec fn from_spec(err: CallError) -> ReinstallError {
        reinstall_error_of(err)
    }
}

/// Encoding an error as the child's exit code and decoding that code gives
/// back the same error: the exit code alone carries the classification.
pub proof fn lemma_exit_code_round_trip(e: ReinstallError)
    ensures
        decoded(Some(code_of(e))) == Err::<(), ReinstallError>(e),
        code_of(e) != 0,
{
}

/// Every exit code outside the protocol's range, and every run without an
/// exit code, decodes as `OtherError`; exit code 0 alone decodes as success.
pub proof fn lemma_out_of_range_codes(code: Option<i32>)
    ensures
        code == Some(0i32) <==> decoded(code) is Ok,
        (code is None || (code.unwrap() != 0 && (code.unwrap() < REINSTALL_CODE_BASE
            || code.unwrap() >= REINSTALL_CODE_BASE + 4))) ==> decoded(code)
            == Err::<(), ReinstallError>(ReinstallError::OtherError),
{
}

/// The command the reinstall child runs inside the chroot to bring back the
/// bootloader and firmware shim; only Fedora has one.
pub fn reinstall_command(distro: &Distribution) -> (r: Result<Vec<String>, ReinstallError>)
    ensures
        *distro == Distribution::Unknown ==> r == Err::<Vec<String>, ReinstallError>(
            ReinstallError::OtherError,
        ),
        *distro == Distribution::Fedora ==> r is Ok && r.unwrap()@.map_values(|s: String| s@)
            == seq!["/usr/bin/dnf"@, "install"@, "-y"@, "grub2-efi"@, "shim"@],
{
    match distro {
        Distribution::Fedora => {
            let mut v: Vec<String> = Vec::new();
            v.push(String::from_str("/usr/bin/dnf"));
            v.push(String::from_str("install"));
            v.push(String::from_str("-y"));
            v.push(String::from_str("grub2-efi"));
            v.push(String::from_str("shim"));
            proof {
                assert(v@.map_values(|s: String| s@) =~= seq![
                    "/usr/bin/dnf"@, "install"@, "-y"@, "grub2-efi"@, "shim"@
                ]);
            }
            Ok(v)
        },
        Distribution::Unknown => Err(ReinstallError::OtherError),
    }
}

/// The two arguments of the reinstall child: the chroot directory and the
/// distribution's string form.
pub fn reinstall_args(mnt_dir: &str, distro: &Distribution) -> (r: Vec<String>)
    ensures
        r@.map_values(|s: String| s@) == seq![mnt_dir@, distro.name_spec()],
{
    let mut v: Vec<String> = Vec::new();
    v.push(String::from_str(mnt_dir));
    v.push(distro.to_string());
    proof {
        assert(v@.map_values(|s: String| s@) =~= seq![mnt_dir@, distro.name_spec()]);
    }
    v
}

} // verus!
