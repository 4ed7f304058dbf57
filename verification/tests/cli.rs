use noir_metrics::{Cli, CliError, OutputFormat};

fn base_cli() -> Cli {
    Cli {
        project_root: ".".to_string(),
        format: None,
        json: false,
        output: None,
        verbose: false,
    }
}

#[test]
fn default_format_is_human() {
    let cli = base_cli();
    assert_eq!(cli.resolve_format(), Ok(OutputFormat::Human));
}

#[test]
fn json_alias_selects_json() {
    let mut cli = base_cli();
    cli.json = true;
    assert_eq!(cli.resolve_format(), Ok(OutputFormat::Json));
}

#[test]
fn explicit_format_wins() {
    let mut cli = base_cli();
    cli.format = Some(OutputFormat::Json);
    assert_eq!(cli.resolve_format(), Ok(OutputFormat::Json));
    cli.format = Some(OutputFormat::Human);
    assert_eq!(cli.resolve_format(), Ok(OutputFormat::Human));
}

#[test]
fn format_and_json_flags_conflict() {
    let mut cli = base_cli();
    cli.format = Some(OutputFormat::Json);
    cli.json = true;
    assert_eq!(cli.resolve_format(), Err(CliError::ConflictingFormatFlags));
}

#[test]
fn output_file_requires_json() {
    let mut cli = base_cli();
    cli.output = Some("metrics.json".to_string());
    assert_eq!(cli.resolve_format(), Err(CliError::OutputRequiresJson));

    cli.format = Some(OutputFormat::Human);
    assert_eq!(cli.resolve_format(), Err(CliError::OutputRequiresJson));

    cli.format = Some(OutputFormat::Json);
    assert_eq!(cli.resolve_format(), Ok(OutputFormat::Json));

    cli.format = None;
    cli.json = true;
    assert_eq!(cli.resolve_format(), Ok(OutputFormat::Json));
}
