use blend_converter::locator::ProcessOutcome;
use blend_converter::pipeline::{output_paths_for, PipeEvent, PipeState};
use blend_converter::{BlenderExecutable, ConversionOptions, Error, FilePath, OutputFormat};

fn p(absolute: bool, comps: &[&str]) -> FilePath {
    FilePath { absolute, components: comps.iter().map(|s| s.to_string()).collect() }
}

fn opts() -> ConversionOptions {
    ConversionOptions { output_format: OutputFormat::Glb, blender_path: None }
}

#[test]
fn mirroring_preserves_relative_structure() {
    let out = p(false, &["out"]);
    let (parent, output) = output_paths_for(&out, &p(false, &["a", "x.blend"])).unwrap();
    assert_eq!(parent.display(), "out/a");
    assert_eq!(output.display(), "out/a/x");

    let (parent, output) = output_paths_for(&out, &p(false, &["a", "b", "y.blend"])).unwrap();
    assert_eq!(parent.display(), "out/a/b");
    assert_eq!(output.display(), "out/a/b/y");
}

#[test]
fn mirroring_rejects_an_entry_without_a_name() {
    let r = output_paths_for(&p(false, &["out"]), &p(false, &[]));
    assert!(matches!(r, Err(Error::InvalidInputFile(_))));
}

#[test]
fn directory_conversion_resolves_the_locator_once() {
    // Two files, one locator: the machine never asks for another probe, and
    // the locator it carries is untouched from the first step to the last.
    let entries = vec![p(false, &["a", "x.blend"]), p(false, &["a", "b", "y.blend"])];
    let mut m = opts().convert_dir(BlenderExecutable::Normal, entries, p(false, &["out"]));
    let mut runs = 0;
    let mut preps = 0;
    loop {
        let event = match &m.state {
            PipeState::Done { result } => {
                assert!(result.is_ok());
                break;
            }
            PipeState::Prepare { .. } => {
                preps += 1;
                let canonical = p(true, &["root", "a", "file.blend"]);
                PipeEvent::Prepared(canonical)
            }
            PipeState::Run { command } => {
                runs += 1;
                assert_eq!(command.program, "blender");
                PipeEvent::Ran(ProcessOutcome::Exited(0))
            }
        };
        m.advance(event);
    }
    assert_eq!(preps, 2);
    assert_eq!(runs, 2);
    assert_eq!(m.index, 2);
    assert!(matches!(m.exe, BlenderExecutable::Normal));
}

#[test]
fn directory_conversion_mirrors_each_entry() {
    let entries = vec![p(false, &["a", "x.blend"])];
    let m = opts().convert_dir(BlenderExecutable::Normal, entries, p(false, &["out"]));
    match &m.state {
        PipeState::Prepare { output_parent, output } => {
            assert_eq!(output_parent.display(), "out/a");
            assert_eq!(output.display(), "out/a/x");
        }
        _ => panic!("the first entry must be prepared"),
    }
}

#[test]
fn second_invalid_file_aborts_before_the_third() {
    let entries = vec![
        p(false, &["a", "x.blend"]),
        p(false, &["a", "y.txt"]),
        p(false, &["a", "z.blend"]),
    ];
    let mut m = opts().convert_dir(BlenderExecutable::Normal, entries, p(false, &["out"]));

    // First file converts.
    m.advance(PipeEvent::Prepared(p(true, &["r", "a", "x.blend"])));
    assert!(matches!(m.state, PipeState::Run { .. }));
    m.advance(PipeEvent::Ran(ProcessOutcome::Exited(0)));

    // Second file fails validation; the whole conversion finishes with its
    // error and the third file is never attempted.
    assert!(matches!(m.state, PipeState::Prepare { .. }));
    m.advance(PipeEvent::Prepared(p(true, &["r", "a", "y.txt"])));
    match &m.state {
        PipeState::Done { result: Err(Error::InvalidInputFile(path)) } => {
            assert_eq!(path.display(), "/r/a/y.txt");
        }
        _ => panic!("the second entry's error must finish the conversion"),
    }
    assert_eq!(m.index, 1);
}

#[test]
fn nonzero_exit_aborts_with_export() {
    let entries = vec![p(false, &["a", "x.blend"]), p(false, &["a", "y.blend"])];
    let mut m = opts().convert_dir(BlenderExecutable::Normal, entries, p(false, &["out"]));
    m.advance(PipeEvent::Prepared(p(true, &["r", "a", "x.blend"])));
    m.advance(PipeEvent::Ran(ProcessOutcome::Exited(1)));
    match &m.state {
        PipeState::Done { result: Err(Error::Export(code)) } => assert_eq!(*code, 1),
        _ => panic!("a non-zero exit must finish the conversion with Export"),
    }
}

#[test]
fn preparation_failure_aborts_with_io_error() {
    let entries = vec![p(false, &["a", "x.blend"])];
    let mut m = opts().convert_dir(BlenderExecutable::Normal, entries, p(false, &["out"]));
    m.advance(PipeEvent::PrepFailed);
    assert!(matches!(m.state, PipeState::Done { result: Err(Error::IOError) }));
}

#[test]
fn empty_entry_list_finishes_at_once() {
    let m = opts().convert_dir(BlenderExecutable::Normal, Vec::new(), p(false, &["out"]));
    assert!(matches!(m.state, PipeState::Done { result: Ok(()) }));
}

#[test]
fn absolute_entry_replaces_the_output_root() {
    // Joining follows the platform rule: an absolute entry path carries its
    // own parent, which replaces the output root.
    let (parent, output) =
        output_paths_for(&p(false, &["out"]), &p(true, &["scenes", "x.blend"])).unwrap();
    assert_eq!(parent.display(), "/scenes");
    assert_eq!(output.display(), "/scenes/x");
}
