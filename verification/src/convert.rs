//! Single-file conversion.
//!
//! Converting one scene file means: canonicalize the input (done by the
//! embedding application), check that it carries the `blend` extension,
//! build the invocation that runs the converter in background mode with the
//! export directive, run it (again the application), and read the exit
//! status. The checking, the building and the reading are verified here.

use crate::locator::{
    push_arg, spec_cmd_args, spec_cmd_program, BlenderExecutable, Invocation, ProcessOutcome,
};
use crate::path::{spec_extension, spec_has_extension, spec_render, FilePath};
use crate::script::{spec_export_script, OutputFormat};
use vstd::prelude::*;
use vstd::string::StringExecFns;

verus! {

/// Errors for converting scene files.
#[derive(Debug)]
pub enum Error {
    /// No working converter invocation was found.
    MissingBlenderExecutable,
    /// The input path does not name a convertible scene file.
    InvalidInputFile(FilePath),
    /// The converter ran and exited with this non-zero code.
    Export(i32),
    /// An underlying filesystem or process-launch failure.
    IOError,
}

/// Whether a path names a scene file: its final component carries exactly
/// the `blend` extension.
pub open spec fn spec_is_blend(p: FilePath) -> bool {
    p@.len() > 0 && spec_has_extension(p@.last()) && spec_extension(p@.last()) == "blend"@
}

/// The arguments of the invocation that converts `input` into `output`
/// with the locator `exe`: its base arguments, then background mode, the
/// input path, and the export directive as an inline script.
pub open spec fn spec_convert_args(
    fmt: OutputFormat,
    input: FilePath,
    output: FilePath,
    exe: BlenderExecutable,
) -> Seq<Seq<char>> {
    spec_cmd_args(exe) + seq![
        "-b"@,
        spec_render(input),
        "--python-expr"@,
        spec_export_script(fmt, output),
    ]
}

/// How conversion options describe the work: the format to export to, and
/// an optional override path for the converter executable.
#[derive(Debug)]
pub struct ConversionOptions {
    /// The desired output format.
    pub output_format: OutputFormat,
    /// An optional override path for the converter. When it is `None` the
    /// standard search runs; read `BlenderExecutable` for the strategy.
    pub blender_path: Option<FilePath>,
}

impl Default for ConversionOptions {
    /// The default options: glTF Binary output and no override path.
    fn default() -> (r: Self)
        ensures
            r.output_format is Glb,
            r.blender_path is None,
    {
        ConversionOptions { output_format: OutputFormat::default(), blender_path: None }
    }
}

impl ConversionOptions {
    /// Creates options with the default output format and no override path.
    pub fn new() -> (r: Self)
        ensures
            r.output_format is Glb,
            r.blender_path is None,
    {
        Self::default()
    }

    /// Builds the invocation that converts the already canonicalized input
    /// into `output` with the given locator. A file without exactly the
    /// `blend` extension is rejected as `InvalidInputFile`, whatever the
    /// output format.
    pub fn convert(
        &self,
        canonical_input: &FilePath,
        output: &FilePath,
        blender_exe: &BlenderExecutable,
    ) -> (r: Result<Invocation, Error>)
        ensures
            !spec_is_blend(*canonical_input) ==> (r matches Err(e) && (e matches
                Error::InvalidInputFile(p) && p.absolute == canonical_input.absolute && p@
                == canonical_input@)),
            spec_is_blend(*canonical_input) ==> (r matches Ok(inv) && inv.program@
                == spec_cmd_program(*blender_exe) && inv.args.deep_view() == spec_convert_args(
                self.output_format,
                *canonical_input,
                *output,
                *blender_exe,
            )),
    {
        self.convert_internal(canonical_input, output, blender_exe)
    }

    /// The shared core of single-file and directory conversion: validates
    /// the extension and builds the conversion invocation.
    pub fn convert_internal(
        &self,
        canonical_input: &FilePath,
        output: &FilePath,
        blender_exe: &BlenderExecutable,
    ) -> (r: Result<Invocation, Error>)
        ensures
            !spec_is_blend(*canonical_input) ==> (r matches Err(e) && (e matches
                Error::InvalidInputFile(p) && p.absolute == canonical_input.absolute && p@
                == canonical_input@)),
            spec_is_blend(*canonical_input) ==> (r matches Ok(inv) && inv.program@
                == spec_cmd_program(*blender_exe) && inv.args.deep_view() == spec_convert_args(
                self.output_format,
                *canonical_input,
                *output,
                *blender_exe,
            )),
    {
        let is_blend = match canonical_input.extension() {
            Some(e) => e == "blend".to_owned(),
            None => false,
        };
        if !is_blend {
            return Err(Error::InvalidInputFile(canonical_input.clone()));
        }
        let mut inv = blender_exe.cmd();
        push_arg(&mut inv.args, "-b");
        let rendered = canonical_input.display();
        push_arg(&mut inv.args, rendered.as_str());
        push_arg(&mut inv.args, "--python-expr");
        let script = self.output_format.export_script(output);
        push_arg(&mut inv.args, script.as_str());
        proof {
            assert(inv.args.deep_view() =~= spec_convert_args(
                self.output_format,
                *canonical_input,
                *output,
                *blender_exe,
            ));
        }
        Ok(inv)
    }
}

/// What a finished conversion launch means: success exactly on exit code
/// zero, `Export` carrying the code on any other exit, `IOError` when the
/// process could not be started at all.
pub open spec fn spec_export_outcome(o: ProcessOutcome) -> Result<(), Error> {
    match o {
        ProcessOutcome::Exited(code) => if code == 0 {
            Ok(())
        } else {
            Err(Error::Export(code))
        },
        ProcessOutcome::LaunchFailed => Err(Error::IOError),
    }
}

/// Reads the outcome of the conversion launch.
pub fn export_outcome(o: &ProcessOutcome) -> (r: Result<(), Error>)
    ensures
        r == spec_export_outcome(*o),
{
    match o {
        ProcessOutcome::Exited(code) => if *code == 0 {
            Ok(())
        } else {
            Err(Error::Export(*code))
        },
        ProcessOutcome::LaunchFailed => Err(Error::IOError),
    }
}

/// Exit-status propagation: a conversion whose process exits with a
/// non-zero status yields `Export` carrying exactly that status, which is
/// distinct from the `IOError` that a failed launch yields.
pub proof fn lemma_exit_status_propagation(code: i32)
    requires
        code != 0,
    ensures
        spec_export_outcome(ProcessOutcome::Exited(code)) matches Err(e) && (e matches
            Error::Export(c) && c == code),
        spec_export_outcome(ProcessOutcome::Exited(code)) != Err::<(), Error>(Error::IOError),
        spec_export_outcome(ProcessOutcome::LaunchFailed) == Err::<(), Error>(Error::IOError),
{
}

} // verus!
