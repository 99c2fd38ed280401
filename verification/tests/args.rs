use musicgpt::args::{Args, ArgsError, Model, RunMode};

fn arguments(prompt: &str) -> Args {
    Args {
        prompt: String::from(prompt),
        model: Model::Small,
        use_split_decoder: false,
        force_download: false,
        data_path: None,
        gpu: false,
        secs: 10,
        output: String::from("musicgpt-generated.wav"),
        infinite: false,
        chunksize: 30,
        overlap: 10,
        no_playback: false,
        no_interactive: false,
        ui_no_open: false,
        ui_port: 8642,
        ui_expose: false,
    }
}

#[test]
fn default_arguments_are_valid() {
    assert_eq!(arguments("").validate(), Ok(()));
    assert_eq!(arguments("calm piano").validate(), Ok(()));
}

#[test]
fn zero_seconds_are_refused() {
    let mut args = arguments("calm piano");
    args.secs = 0;
    assert_eq!(args.validate(), Err(ArgsError::SecsNotPositive));
    args.no_interactive = true;
    args.prompt = String::new();
    assert_eq!(args.validate(), Err(ArgsError::SecsNotPositive));
}

#[test]
fn non_interactive_run_needs_a_prompt() {
    let mut args = arguments("");
    args.no_interactive = true;
    assert_eq!(args.validate(), Err(ArgsError::PromptMissing));
    args.prompt = String::from("calm piano");
    assert_eq!(args.validate(), Ok(()));
}

#[test]
fn error_messages_name_the_rule() {
    assert_eq!(ArgsError::SecsNotPositive.message(), "--secs must > 0");
    assert_eq!(
        ArgsError::PromptMissing.message(),
        "A prompt must be provided when not in interactive mode"
    );
}

#[test]
fn model_names_are_shown_in_full() {
    assert_eq!(Model::Small.to_string(), "MusicGen Small");
    assert_eq!(Model::SmallFp16.to_string(), "MusicGen Small Fp16");
    assert_eq!(Model::SmallQuant.to_string(), "MusicGen Small Quantized");
    assert_eq!(Model::Medium.to_string(), "MusicGen Medium");
    assert_eq!(Model::MediumFp16.to_string(), "MusicGen Medium Fp16");
    assert_eq!(Model::MediumQuant.to_string(), "MusicGen Medium Quantized");
    assert_eq!(Model::Large.to_string(), "MusicGen Large");
}

#[test]
fn prompt_decides_between_terminal_and_web_app() {
    assert_eq!(arguments("").run_mode(), RunMode::WebApp);
    assert_eq!(arguments("calm piano").run_mode(), RunMode::Terminal);
}

#[test]
fn terminal_options_carry_the_arguments_over() {
    let mut args = arguments("calm piano");
    args.secs = 45;
    args.output = String::from("out");
    args.infinite = true;
    args.chunksize = 20;
    args.overlap = 5;
    args.no_playback = true;
    args.no_interactive = true;
    let options = args.terminal_options();
    assert_eq!(options.init_prompt, "calm piano");
    assert_eq!(options.init_secs, 45);
    assert_eq!(options.init_output, "out");
    assert!(options.infinite);
    assert_eq!(options.chunksize, 20);
    assert_eq!(options.overlap, 5);
    assert!(options.no_playback);
    assert!(options.no_interactive);
}
