//! Whole-directory conversion.
//!
//! A directory conversion resolves the locator once, walks the input tree
//! (the walk itself is filesystem work done by the embedding application),
//! and converts every file entry while mirroring the relative directory
//! structure under the output root: an output file stands under the output
//! root at the relative path of its source, with the extension stripped;
//! the converter appends its own extension for the chosen format.
//!
//! The pipeline is a state machine. [`DirConversion`] holds the resolved
//! locator, the file entries and a cursor; its state names the one piece of
//! outside work to do next. The first failing entry finishes the whole
//! conversion with that entry's error: there is no continue-on-error mode.

use crate::convert::{
    spec_convert_args, spec_export_outcome, spec_is_blend, ConversionOptions, Error,
    export_outcome,
};
use crate::locator::{spec_cmd_program, BlenderExecutable, Invocation, ProcessOutcome};
use crate::path::{spec_stem, FilePath};
use crate::script::OutputFormat;
use vstd::pervasive::unreached;
use vstd::prelude::*;

verus! {

/// Whether the mirrored parent of `entry` under `output_dir` is absolute:
/// joining follows the platform rule that an absolute path replaces the
/// base it is joined onto.
pub open spec fn spec_mirror_parent_absolute(output_dir: FilePath, entry: FilePath) -> bool {
    if entry.absolute {
        true
    } else {
        output_dir.absolute
    }
}

/// The components of the mirrored parent of `entry` under `output_dir`:
/// the output root joined with the entry's parent directory.
pub open spec fn spec_mirror_parent(output_dir: FilePath, entry: FilePath) -> Seq<Seq<char>> {
    if entry.absolute {
        entry@.drop_last()
    } else {
        output_dir@ + entry@.drop_last()
    }
}

/// The components of the mirrored output path of `entry` under
/// `output_dir`: the mirrored parent, then the entry's stem. The extension
/// is left off; the converter appends its own.
pub open spec fn spec_mirror_output(output_dir: FilePath, entry: FilePath) -> Seq<Seq<char>> {
    spec_mirror_parent(output_dir, entry).push(spec_stem(entry@.last()))
}

/// Directory mirroring: computes where the conversion of `entry` lands
/// under `output_dir`, as the pair of the parent directory to create and
/// the full output path. An entry without a final component has no stem
/// and is rejected as `InvalidInputFile`.
pub fn output_paths_for(output_dir: &FilePath, entry: &FilePath) -> (r: Result<
    (FilePath, FilePath),
    Error,
>)
    ensures
        entry@.len() == 0 ==> (r matches Err(e) && (e matches Error::InvalidInputFile(p)
            && p.absolute == entry.absolute && p@ == entry@)),
        entry@.len() > 0 ==> (r matches Ok(pair) && pair.0.absolute == spec_mirror_parent_absolute(
            *output_dir,
            *entry,
        ) && pair.0@ == spec_mirror_parent(*output_dir, *entry) && pair.1.absolute
            == spec_mirror_parent_absolute(*output_dir, *entry) && pair.1@ == spec_mirror_output(
            *output_dir,
            *entry,
        )),
{
    if entry.components.len() == 0 {
        return Err(Error::InvalidInputFile(entry.clone()));
    }
    let base = entry.parent_path();
    let parent = output_dir.join(&base);
    match entry.file_stem() {
        Some(stem) => {
            let output = parent.push_component(stem);
            Ok((parent, output))
        },
        None => unreached(),
    }
}

/// The one piece of outside work a directory conversion waits for.
#[derive(Debug)]
pub enum PipeState {
    /// Create the parent directory recursively and canonicalize the current
    /// entry's input path; then report with `Prepared` or `PrepFailed`.
    Prepare {
        /// The directory to create.
        output_parent: FilePath,
        /// The output path the conversion writes to.
        output: FilePath,
    },
    /// Run this invocation; then report with `Ran`.
    Run {
        /// The conversion invocation.
        command: Invocation,
    },
    /// The conversion is finished.
    Done {
        /// Success, or the first entry's error.
        result: Result<(), Error>,
    },
}

/// What the embedding application reports back for one step.
#[derive(Debug)]
pub enum PipeEvent {
    /// The parent directory exists and the input canonicalized to this path.
    Prepared(FilePath),
    /// Creating the directory or canonicalizing the input failed.
    PrepFailed,
    /// The conversion process finished thus.
    Ran(ProcessOutcome),
}

/// A directory conversion in flight: the format, the locator resolved once
/// for the whole walk, the output root, the file entries, a cursor, and the
/// piece of outside work waited for.
#[derive(Debug)]
pub struct DirConversion {
    /// The format every entry is exported to.
    pub output_format: OutputFormat,
    /// The locator, resolved once before the walk and reused for every
    /// entry; no state of this machine ever asks for another probe.
    pub exe: BlenderExecutable,
    /// The output root that mirrors the input tree.
    pub output_dir: FilePath,
    /// The file entries of the input tree, in walk order.
    pub entries: Vec<FilePath>,
    /// How many entries are fully converted.
    pub index: usize,
    /// The piece of outside work waited for.
    pub state: PipeState,
}

impl DirConversion {
    /// The cursor stays within the entries, and points at a real entry
    /// whenever work is still waited for.
    pub open spec fn wf(self) -> bool {
        &&& self.index <= self.entries@.len()
        &&& !(self.state is Done) ==> self.index < self.entries@.len()
    }

    /// The machine stands at the start of the entry under its cursor: past
    /// the last entry it is done successfully; at an entry without a final
    /// component it is done with that entry's `InvalidInputFile`; otherwise
    /// it waits for the preparation of the mirrored output paths.
    pub open spec fn at_entry(self) -> bool {
        if self.index >= self.entries@.len() {
            self.state matches PipeState::Done { result } && result == Ok::<(), Error>(())
        } else {
            let entry = self.entries@[self.index as int];
            if entry@.len() == 0 {
                self.state matches PipeState::Done { result } && (result matches Err(e) && (e
                    matches Error::InvalidInputFile(p) && p.absolute == entry.absolute && p@
                    == entry@))
            } else {
                self.state matches PipeState::Prepare { output_parent, output }
                    && output_parent.absolute == spec_mirror_parent_absolute(
                    self.output_dir,
                    entry,
                ) && output_parent@ == spec_mirror_parent(self.output_dir, entry)
                    && output.absolute == spec_mirror_parent_absolute(self.output_dir, entry)
                    && output@ == spec_mirror_output(self.output_dir, entry)
            }
        }
    }

    /// Moves the machine to the start of the entry under its cursor.
    fn enter_entry(&mut self)
        requires
            old(self).index <= old(self).entries@.len(),
        ensures
            final(self).output_format == old(self).output_format,
            final(self).exe == old(self).exe,
            final(self).output_dir == old(self).output_dir,
            final(self).entries == old(self).entries,
            final(self).index == old(self).index,
            final(self).at_entry(),
            final(self).wf(),
    {
        if self.index >= self.entries.len() {
            self.state = PipeState::Done { result: Ok(()) };
            return ;
        }
        let entry = &self.entries[self.index];
        match output_paths_for(&self.output_dir, entry) {
            Ok(pair) => {
                self.state = PipeState::Prepare { output_parent: pair.0, output: pair.1 };
            },
            Err(err) => {
                self.state = PipeState::Done { result: Err(err) };
            },
        }
    }

    /// Consumes the report of the one piece of outside work waited for.
    ///
    /// The resolved locator is reused untouched across every step, so
    /// discovery happens exactly once per directory conversion; and the
    /// first error of any entry finishes the whole conversion with that
    /// error, so no later entry is ever prepared or run.
    pub fn advance(&mut self, e: PipeEvent)
        requires
            old(self).wf(),
            !(old(self).state is Done),
            old(self).state is Prepare ==> (e is Prepared || e is PrepFailed),
            old(self).state is Run ==> e is Ran,
        ensures
            final(self).output_format == old(self).output_format,
            final(self).exe == old(self).exe,
            final(self).output_dir == old(self).output_dir,
            final(self).entries == old(self).entries,
            final(self).wf(),
            (match e {
                PipeEvent::PrepFailed => final(self).index == old(self).index && (final(self).state matches PipeState::Done { result } && result == Err::<(), Error>(
                    Error::IOError,
                )),
                PipeEvent::Prepared(c) => if !spec_is_blend(c) {
                    final(self).index == old(self).index && (final(self).state matches
                        PipeState::Done { result } && (result matches Err(err) && (err matches
                        Error::InvalidInputFile(p) && p.absolute == c.absolute && p@ == c@)))
                } else {
                    match old(self).state {
                        PipeState::Prepare { output_parent, output } => final(self).index == old(self).index && (final(self).state matches PipeState::Run { command }
                            && command.program@ == spec_cmd_program(old(self).exe)
                            && command.args.deep_view() == spec_convert_args(
                            old(self).output_format,
                            c,
                            output,
                            old(self).exe,
                        )),
                        _ => true,
                    }
                },
                PipeEvent::Ran(o) => if spec_export_outcome(o) is Ok {
                    final(self).index == old(self).index + 1 && final(self).at_entry()
                } else {
                    final(self).index == old(self).index && (final(self).state matches
                        PipeState::Done { result } && result == spec_export_outcome(o))
                },
            }),
    {
        match e {
            PipeEvent::PrepFailed => {
                self.state = PipeState::Done { result: Err(Error::IOError) };
            },
            PipeEvent::Prepared(c) => {
                let output = match &self.state {
                    PipeState::Prepare { output, .. } => output.clone(),
                    _ => unreached(),
                };
                let opts = ConversionOptions {
                    output_format: self.output_format,
                    blender_path: None,
                };
                match opts.convert_internal(&c, &output, &self.exe) {
                    Ok(command) => {
                        self.state = PipeState::Run { command };
                    },
                    Err(err) => {
                        self.state = PipeState::Done { result: Err(err) };
                    },
                }
            },
            PipeEvent::Ran(o) => {
                match export_outcome(&o) {
                    Ok(_) => {
                        let n = self.entries.len();
                        proof {
                            assert(self.index < n);
                        }
                        self.index = self.index + 1;
                        self.enter_entry();
                    },
                    Err(err) => {
                        self.state = PipeState::Done { result: Err(err) };
                    },
                }
            },
        }
    }
}

impl ConversionOptions {
    /// Begins a directory conversion over the given file entries, mirroring
    /// their structure under `output_dir`, with a locator that was resolved
    /// once for the whole conversion.
    pub fn convert_dir(
        &self,
        blender_exe: BlenderExecutable,
        entries: Vec<FilePath>,
        output_dir: FilePath,
    ) -> (r: DirConversion)
        ensures
            r.output_format == self.output_format,
            r.exe == blender_exe,
            r.output_dir == output_dir,
            r.entries == entries,
            r.index == 0,
            r.at_entry(),
            r.wf(),
    {
        let mut m = DirConversion {
            output_format: self.output_format,
            exe: blender_exe,
            output_dir,
            entries,
            index: 0,
            state: PipeState::Done { result: Ok(()) },
        };
        m.enter_entry();
        m
    }
}

} // verus!
