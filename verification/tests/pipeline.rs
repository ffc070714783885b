use caesium_clt::compressor::{
    build_compression_options, error_result, gate_outcome, get_parallelism_count, plan_job,
    skipped_result, stage_message, CompressionOptions, CompressionStatus, JobPlan, JobStage,
    PostCodecAction,
};
use caesium_clt::options::{
    ChromaSubsampling, CommandLineArgs, Compression, JpegChromaSubsampling, OutputDestination,
    OutputFormat, OverwritePolicy, Resize, VerboseLevel,
};

fn no_resize() -> Resize {
    Resize {
        width: None,
        height: None,
        long_edge: None,
        short_edge: None,
    }
}

fn options_to(output: &str) -> CompressionOptions {
    CompressionOptions {
        quality: Some(80),
        lossless: false,
        output_folder: Some(String::from(output)),
        same_folder_as_input: false,
        overwrite_policy: OverwritePolicy::All,
        format: OutputFormat::Original,
        suffix: None,
        keep_structure: false,
        width: None,
        height: None,
        long_edge: None,
        short_edge: None,
        max_size: None,
        keep_dates: false,
        exif: false,
        png_opt_level: 3,
        jpeg_chroma_subsampling: ChromaSubsampling::Auto,
        jpeg_baseline: false,
        zopfli: false,
        base_path: String::from("/base"),
    }
}

#[test]
fn test_get_parallelism_count() {
    let result = get_parallelism_count(4, 4);
    assert_eq!(result, 4);

    let result = get_parallelism_count(2, 8);
    assert_eq!(result, 2);

    let result = get_parallelism_count(0, 8);
    assert_eq!(result, 8);

    let result = get_parallelism_count(1, 8);
    assert_eq!(result, 1);

    let result = get_parallelism_count(8, 2);
    assert_eq!(result, 2);

    let result = get_parallelism_count(0, 0);
    assert_eq!(result, 0);
}

#[test]
fn dry_run_plans_all_three_files_as_success() {
    // Three inputs, policy All, no resize, dry run: every job reports
    // Success and the compressed size stays at its default of 0.
    let options = options_to("/output");
    let inputs = ["/base/a.jpg", "/base/b.png", "/base/sub/c.webp"];
    let mut results = Vec::new();
    for input in inputs {
        match plan_job(&options, input, 1000, true) {
            JobPlan::Finished(res) => {
                assert_eq!(res.status, CompressionStatus::Success);
                assert_eq!(res.compressed_size, 0);
                assert_eq!(res.original_size, 1000);
                assert_eq!(res.original_path, input);
                results.push(res);
            },
            JobPlan::Compress { .. } => panic!("a dry run must not reach the codec"),
        }
    }
    // The recap of such a run: three successes, nothing compressed.
    let stats = caesium_clt::report::aggregate_results(&results);
    assert_eq!(stats.success_count, 3);
    assert_eq!(stats.skipped_count, 0);
    assert_eq!(stats.error_count, 0);
    assert_eq!(stats.total_original_size, 3000);
    assert_eq!(stats.total_compressed_size, 0);
}

#[test]
fn bigger_policy_skips_grown_candidate() {
    // An existing output, policy Bigger, and a codec answer larger than
    // the original: the job is skipped, the reported size is the original
    // size, and no bytes are handed back for writing.
    let candidate = vec![0u8; 150];
    let action = gate_outcome(OverwritePolicy::Bigger, true, 100, Ok(candidate));
    assert!(matches!(action, PostCodecAction::SkipJob));

    let res = skipped_result("/base/a.jpg", "/output/a.jpg", 100);
    assert_eq!(res.status, CompressionStatus::Skipped);
    assert_eq!(res.compressed_size, 100);
    assert_eq!(res.original_size, 100);
}

#[test]
fn bigger_policy_writes_smaller_candidate() {
    let candidate = vec![0u8; 60];
    match gate_outcome(OverwritePolicy::Bigger, true, 100, Ok(candidate)) {
        PostCodecAction::WriteBytes(b) => assert_eq!(b.len(), 60),
        _ => panic!("a smaller candidate must be written"),
    }
}

#[test]
fn never_policy_skips_any_existing_output() {
    for len in [0usize, 100, 200] {
        let action = gate_outcome(OverwritePolicy::Never, true, 100, Ok(vec![0u8; len]));
        assert!(matches!(action, PostCodecAction::SkipJob));
    }
    // Without an existing output even Never writes.
    let action = gate_outcome(OverwritePolicy::Never, false, 100, Ok(vec![0u8; 200]));
    assert!(matches!(action, PostCodecAction::WriteBytes(_)));
}

#[test]
fn all_policy_always_writes() {
    for exists in [false, true] {
        for len in [50usize, 100, 200] {
            let action = gate_outcome(OverwritePolicy::All, exists, 100, Ok(vec![0u8; len]));
            assert!(matches!(action, PostCodecAction::WriteBytes(_)));
        }
    }
}

#[test]
fn codec_failure_becomes_fail_action() {
    let action = gate_outcome(
        OverwritePolicy::All,
        false,
        100,
        Err(String::from("codec gave up")),
    );
    match action {
        PostCodecAction::Fail(m) => assert_eq!(m, "codec gave up"),
        _ => panic!("a codec error must fail the job"),
    }
}

#[test]
fn plan_job_without_output_folder_errors() {
    let mut options = options_to("/output");
    options.output_folder = None;
    match plan_job(&options, "/base/a.jpg", 10, false) {
        JobPlan::Finished(res) => {
            assert_eq!(res.status, CompressionStatus::Error);
            assert_eq!(res.message, "Error determining output directory");
        },
        _ => panic!("planning must fail without an output directory"),
    }
}

#[test]
fn plan_job_same_folder_without_parent_errors() {
    let mut options = options_to("/output");
    options.output_folder = None;
    options.same_folder_as_input = true;
    match plan_job(&options, "no_separator", 10, false) {
        JobPlan::Finished(res) => {
            assert_eq!(res.status, CompressionStatus::Error);
            assert_eq!(res.message, "Error determining output directory");
        },
        _ => panic!("planning must fail without a parent directory"),
    }
}

#[test]
fn plan_job_outside_base_with_structure_errors() {
    let mut options = options_to("/output");
    options.keep_structure = true;
    match plan_job(&options, "/elsewhere/a.jpg", 10, false) {
        JobPlan::Finished(res) => {
            assert_eq!(res.status, CompressionStatus::Error);
            assert_eq!(res.message, "Error computing output path");
        },
        _ => panic!("planning must fail outside the base directory"),
    }
}

#[test]
fn plan_job_applies_format_extension() {
    let mut options = options_to("/output");
    options.format = OutputFormat::Webp;
    match plan_job(&options, "/base/photo.jpg", 10, false) {
        JobPlan::Compress { output_path } => assert_eq!(output_path, "/output/photo.webp"),
        _ => panic!("planning must reach the codec"),
    }
}

#[test]
fn plan_job_same_folder_overwrites_next_to_input() {
    let mut options = options_to("/output");
    options.output_folder = None;
    options.same_folder_as_input = true;
    match plan_job(&options, "/base/sub/photo.jpg", 10, false) {
        JobPlan::Compress { output_path } => assert_eq!(output_path, "/base/sub/photo.jpg"),
        _ => panic!("planning must reach the codec"),
    }
}

#[test]
fn error_result_keeps_stage_message() {
    let res = error_result(
        "/base/a.jpg",
        "",
        7,
        String::from(stage_message(JobStage::Metadata)),
    );
    assert_eq!(res.status, CompressionStatus::Error);
    assert_eq!(res.message, "Error reading file metadata");
    assert_eq!(res.compressed_size, 0);
    assert_eq!(res.original_size, 7);
    assert_eq!(stage_message(JobStage::FileWrite), "Error writing output file");
    assert_eq!(stage_message(JobStage::Timestamp), "Error preserving file dates");
    assert_eq!(stage_message(JobStage::ResizeMetadata), "Error reading image dimensions");
}

#[test]
fn build_compression_options_copies_the_arguments() {
    let args = CommandLineArgs {
        compression: Compression {
            quality: Some(55),
            lossless: true,
            max_size: Some(9),
        },
        resize: Resize {
            width: Some(640),
            height: None,
            long_edge: None,
            short_edge: None,
        },
        output_destination: OutputDestination {
            output: Some(String::from("/out")),
            same_folder_as_input: false,
        },
        format: OutputFormat::Png,
        png_opt_level: 6,
        zopfli: true,
        exif: true,
        keep_dates: true,
        suffix: Some(String::from("_small")),
        recursive: true,
        keep_structure: true,
        dry_run: false,
        threads: 2,
        overwrite: OverwritePolicy::Bigger,
        jpeg_chroma_subsampling: JpegChromaSubsampling::ChromaSubsampling420,
        jpeg_baseline: true,
        quiet: false,
        verbose: VerboseLevel::Progress,
        files: vec![String::from("/base/a.jpg")],
    };
    let options = build_compression_options(&args, "/base");
    assert_eq!(options.quality, Some(55));
    assert!(options.lossless);
    assert_eq!(options.output_folder, Some(String::from("/out")));
    assert!(!options.same_folder_as_input);
    assert_eq!(options.overwrite_policy, OverwritePolicy::Bigger);
    assert_eq!(options.format, OutputFormat::Png);
    assert_eq!(options.suffix, Some(String::from("_small")));
    assert!(options.keep_structure);
    assert_eq!(options.width, Some(640));
    assert_eq!(options.height, None);
    assert_eq!(options.max_size, Some(9));
    assert!(options.keep_dates);
    assert!(options.exif);
    assert_eq!(options.png_opt_level, 6);
    assert_eq!(options.jpeg_chroma_subsampling, ChromaSubsampling::CS420);
    assert!(options.jpeg_baseline);
    assert!(options.zopfli);
    assert_eq!(options.base_path, "/base");
}
