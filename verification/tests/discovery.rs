use blend_converter::locator::{ProcessOutcome, SearchStep};
use blend_converter::{BlenderExecutable, ConversionOptions, FilePath, OutputFormat};

fn p(absolute: bool, comps: &[&str]) -> FilePath {
    FilePath { absolute, components: comps.iter().map(|s| s.to_string()).collect() }
}

fn args(a: &[&str]) -> Vec<String> {
    a.iter().map(|s| s.to_string()).collect()
}

#[test]
fn discovery_priority_prefers_bare_name() {
    // Both candidates would succeed; the bare name is probed first and wins,
    // and the launcher is never probed.
    let search = BlenderExecutable::find();
    assert!(matches!(search.candidate, BlenderExecutable::Normal));
    match search.advance(&ProcessOutcome::Exited(0)) {
        SearchStep::Found(exe) => assert!(matches!(exe, BlenderExecutable::Normal)),
        _ => panic!("bare-name candidate must be accepted"),
    }
}

#[test]
fn discovery_falls_back_to_flatpak() {
    let search = BlenderExecutable::find();
    let next = match search.advance(&ProcessOutcome::Exited(1)) {
        SearchStep::TryNext(next) => next,
        _ => panic!("a failed bare-name probe must fall back"),
    };
    assert!(matches!(next.candidate, BlenderExecutable::Flatpak));
    match next.advance(&ProcessOutcome::Exited(0)) {
        SearchStep::Found(exe) => assert!(matches!(exe, BlenderExecutable::Flatpak)),
        _ => panic!("the launcher candidate must be accepted"),
    }
}

#[test]
fn discovery_launch_failure_counts_as_probe_failure() {
    let search = BlenderExecutable::find();
    match search.advance(&ProcessOutcome::LaunchFailed) {
        SearchStep::TryNext(next) => {
            assert!(matches!(next.candidate, BlenderExecutable::Flatpak))
        }
        _ => panic!("a launch failure must fall back, not abort"),
    }
}

#[test]
fn discovery_total_failure_is_missing() {
    let search = BlenderExecutable::find();
    let next = match search.advance(&ProcessOutcome::Exited(127)) {
        SearchStep::TryNext(next) => next,
        _ => panic!("a failed bare-name probe must fall back"),
    };
    assert!(matches!(
        next.advance(&ProcessOutcome::LaunchFailed),
        SearchStep::Missing
    ));
}

#[test]
fn explicit_path_has_no_fallback() {
    let search = BlenderExecutable::find_using_path(&p(true, &["opt", "blender"]));
    assert!(!search.fallback_to_flatpak);
    assert!(matches!(
        search.advance(&ProcessOutcome::Exited(1)),
        SearchStep::Missing
    ));
}

#[test]
fn options_with_override_probe_only_that_path() {
    let options = ConversionOptions {
        output_format: OutputFormat::Glb,
        blender_path: Some(p(true, &["opt", "blender"])),
    };
    let search = BlenderExecutable::find_using_options(&options);
    match &search.candidate {
        BlenderExecutable::Path(path) => assert_eq!(path.display(), "/opt/blender"),
        _ => panic!("the override path must be the only candidate"),
    }
    assert!(!search.fallback_to_flatpak);
}

#[test]
fn options_without_override_run_the_standard_search() {
    let search = BlenderExecutable::find_using_options(&ConversionOptions::new());
    assert!(matches!(search.candidate, BlenderExecutable::Normal));
    assert!(search.fallback_to_flatpak);
}

#[test]
fn base_invocations_per_strategy() {
    let normal = BlenderExecutable::Normal.cmd();
    assert_eq!(normal.program, "blender");
    assert!(normal.args.is_empty());

    let flatpak = BlenderExecutable::Flatpak.cmd();
    assert_eq!(flatpak.program, "flatpak");
    assert_eq!(flatpak.args, args(&["run", "org.blender.Blender"]));

    let by_path = BlenderExecutable::Path(p(true, &["opt", "blender"])).cmd();
    assert_eq!(by_path.program, "/opt/blender");
    assert!(by_path.args.is_empty());
}

#[test]
fn probe_invocation_adds_background_and_verbose() {
    let probe = BlenderExecutable::Normal.probe_command();
    assert_eq!(probe.program, "blender");
    assert_eq!(probe.args, args(&["-b", "-v"]));

    let probe = BlenderExecutable::Flatpak.probe_command();
    assert_eq!(probe.args, args(&["run", "org.blender.Blender", "-b", "-v"]));
}
