use blend_converter::convert::export_outcome;
use blend_converter::locator::ProcessOutcome;
use blend_converter::{BlenderExecutable, ConversionOptions, Error, FilePath, OutputFormat};

fn p(absolute: bool, comps: &[&str]) -> FilePath {
    FilePath { absolute, components: comps.iter().map(|s| s.to_string()).collect() }
}

fn opts(format: OutputFormat) -> ConversionOptions {
    ConversionOptions { output_format: format, blender_path: None }
}

#[test]
fn wrong_extension_is_invalid_for_every_format() {
    let formats = [OutputFormat::Glb, OutputFormat::GltfEmbedded, OutputFormat::GltfSeparate];
    for format in formats {
        let input = p(true, &["scenes", "x.txt"]);
        let r = opts(format).convert(&input, &p(false, &["out", "x"]), &BlenderExecutable::Normal);
        match r {
            Err(Error::InvalidInputFile(path)) => assert_eq!(path.display(), "/scenes/x.txt"),
            _ => panic!("a non-blend extension must be rejected"),
        }
    }
}

#[test]
fn missing_extension_is_invalid() {
    let input = p(true, &["scenes", "x"]);
    let r = opts(OutputFormat::Glb).convert(
        &input,
        &p(false, &["out", "x"]),
        &BlenderExecutable::Normal,
    );
    assert!(matches!(r, Err(Error::InvalidInputFile(_))));
}

#[test]
fn conversion_invocation_is_exact() {
    let input = p(true, &["scenes", "x.blend"]);
    let output = p(false, &["out", "x"]);
    let inv = opts(OutputFormat::Glb)
        .convert(&input, &output, &BlenderExecutable::Normal)
        .expect("a blend file must be accepted");
    assert_eq!(inv.program, "blender");
    assert_eq!(
        inv.args,
        vec![
            "-b".to_string(),
            "/scenes/x.blend".to_string(),
            "--python-expr".to_string(),
            "import bpy; bpy.ops.export_scene.gltf(filepath=\"out/x\", check_existing=False, export_format=\"GLB\")"
                .to_string(),
        ]
    );
}

#[test]
fn conversion_invocation_keeps_the_locator_prefix() {
    let input = p(true, &["scenes", "x.blend"]);
    let inv = opts(OutputFormat::Glb)
        .convert(&input, &p(false, &["out", "x"]), &BlenderExecutable::Flatpak)
        .expect("a blend file must be accepted");
    assert_eq!(inv.program, "flatpak");
    assert_eq!(inv.args[0], "run");
    assert_eq!(inv.args[1], "org.blender.Blender");
    assert_eq!(inv.args[2], "-b");
}

#[test]
fn directive_carries_exactly_its_token() {
    let output = p(false, &["out", "x"]);
    let glb = OutputFormat::Glb.export_script(&output);
    assert!(glb.contains("\"GLB\""));
    assert!(!glb.contains("GLTF_EMBEDDED"));
    assert!(!glb.contains("GLTF_SEPARATE"));

    let embedded = OutputFormat::GltfEmbedded.export_script(&output);
    assert!(embedded.contains("\"GLTF_EMBEDDED\""));
    assert!(!embedded.contains("GLTF_SEPARATE"));
    assert!(!embedded.contains("\"GLB\""));

    let separate = OutputFormat::GltfSeparate.export_script(&output);
    assert!(separate.contains("\"GLTF_SEPARATE\""));
    assert!(!separate.contains("GLTF_EMBEDDED"));
    assert!(!separate.contains("\"GLB\""));
}

#[test]
fn directive_quotes_the_destination() {
    let output = p(false, &["out", "we\"ird\\name"]);
    let script = OutputFormat::Glb.export_script(&output);
    assert_eq!(
        script,
        "import bpy; bpy.ops.export_scene.gltf(filepath=\"out/we\\\"ird\\\\name\", check_existing=False, export_format=\"GLB\")"
    );
}

#[test]
fn exit_zero_is_success() {
    assert!(matches!(export_outcome(&ProcessOutcome::Exited(0)), Ok(())));
}

#[test]
fn nonzero_exit_is_export_with_that_status() {
    match export_outcome(&ProcessOutcome::Exited(1)) {
        Err(Error::Export(code)) => assert_eq!(code, 1),
        _ => panic!("a non-zero exit must surface as Export"),
    }
}

#[test]
fn launch_failure_is_io_error_not_export() {
    assert!(matches!(
        export_outcome(&ProcessOutcome::LaunchFailed),
        Err(Error::IOError)
    ));
}

#[test]
fn default_options_are_binary_with_no_override() {
    let options = ConversionOptions::new();
    assert!(matches!(options.output_format, OutputFormat::Glb));
    assert!(options.blender_path.is_none());
}
