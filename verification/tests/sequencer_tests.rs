use gtoolkit_installer::application::Application;
use gtoolkit_installer::error::InstallerError;
use gtoolkit_installer::platform::PlatformOS;
use gtoolkit_installer::seed::ImageSeed;
use gtoolkit_installer::smalltalk::command::SmalltalkCommand;
use gtoolkit_installer::smalltalk::evaluator::SmalltalkEvaluator;
use gtoolkit_installer::smalltalk::execution::{
    execution_output_result, execution_result, trim, ExecutableSmalltalk, SmalltalkScriptsToExecute,
    StepStatus,
};
use gtoolkit_installer::smalltalk::expression::{SmalltalkExpression, SmalltalkExpressionBuilder};
use gtoolkit_installer::smalltalk::script::SmalltalkScriptToExecute;
use gtoolkit_installer::smalltalk::smalltalk::{Smalltalk, SmalltalkFlags};
use gtoolkit_installer::smalltalking;
use gtoolkit_installer::version::{AppVersion, ImageVersion, Version};

fn sample_application() -> Application {
    Application::new(
        "/tmp/ws",
        AppVersion::new(Version::new(1, 0, 0)),
        ImageVersion::new(Version::new(2, 0, 0)),
        ImageSeed::from_url("https://example.com/seed.zip"),
        PlatformOS::LinuxX8664,
    )
}

fn evaluator() -> SmalltalkEvaluator {
    let app = sample_application();
    let smalltalk = Smalltalk::new(
        "bin/GlamorousToolkit-cli",
        "/tmp/ws/GlamorousToolkit.image",
        SmalltalkFlags::gtoolkit(),
        &app,
    );
    SmalltalkEvaluator::new(&smalltalk)
}

fn five_scripts() -> SmalltalkScriptsToExecute {
    let mut scripts = SmalltalkScriptsToExecute::new();
    for name in ["a.st", "b.st", "c.st", "d.st", "e.st"] {
        scripts.add(ExecutableSmalltalk::Script(SmalltalkScriptToExecute::new(name)));
    }
    scripts
}

#[test]
fn a_failing_step_halts_the_queue() {
    let mut scripts = five_scripts();
    let outcomes = vec![true, true, false, true, true];
    let result = scripts.apply_outcomes(&evaluator(), true, &outcomes);
    assert!(result.is_err());
    assert_eq!(scripts.status_of(0), StepStatus::Succeeded);
    assert_eq!(scripts.status_of(1), StepStatus::Succeeded);
    assert_eq!(scripts.status_of(2), StepStatus::Failed);
    assert_eq!(scripts.status_of(3), StepStatus::Pending);
    assert_eq!(scripts.status_of(4), StepStatus::Pending);
    let err = result.unwrap_err();
    assert!(matches!(&err, InstallerError::CommandExecutionFailed(c) if c.contains("c.st")));
}

#[test]
fn an_all_success_run_succeeds_every_step() {
    let mut scripts = five_scripts();
    let outcomes = vec![true, true, true, true, true];
    assert!(scripts.apply_outcomes(&evaluator(), true, &outcomes).is_ok());
    for i in 0..5 {
        assert_eq!(scripts.status_of(i), StepStatus::Succeeded);
    }
}

#[test]
fn stepwise_execution_runs_in_order_and_halts_on_failure() {
    let mut scripts = five_scripts();
    assert_eq!(scripts.next_to_run(), Some(0));
    scripts.begin_step(0);
    scripts.finish_step(0, true);
    assert_eq!(scripts.next_to_run(), Some(1));
    scripts.begin_step(1);
    scripts.finish_step(1, false);
    assert_eq!(scripts.next_to_run(), None);
}

#[test]
fn the_older_sequencer_reports_the_same_shape() {
    let mut scripts = smalltalking::SmalltalkScriptsToExecute::new("/tmp/ws");
    for name in ["load-patches.st", "load-taskit.st", "loader.st"] {
        scripts = scripts.add(smalltalking::SmalltalkScriptToExecute::new(
            "pharo-vm/pharo",
            "/tmp/ws/GlamorousToolkit.image",
            name,
        ));
    }
    let outcomes = vec![true, false, true];
    let err = scripts.apply_outcomes(&outcomes).unwrap_err();
    assert!(matches!(&err, InstallerError::CommandExecutionFailed(c) if c.contains("load-taskit.st")));
    assert_eq!(scripts.status_of(0), StepStatus::Succeeded);
    assert_eq!(scripts.status_of(1), StepStatus::Failed);
    assert_eq!(scripts.status_of(2), StepStatus::Pending);
}

#[test]
fn older_steps_build_their_exact_command_line() {
    let step = smalltalking::SmalltalkScriptToExecute::new(
        "pharo-vm/pharo",
        "GlamorousToolkit.image",
        "start-gt.st",
    )
    .no_quit()
    .interactive();
    let invocation = step.create_command("/tmp/ws");
    assert_eq!(invocation.program(), "pharo-vm/pharo");
    assert_eq!(invocation.current_dir(), "/tmp/ws");
    let args: Vec<&str> = (0..invocation.arg_count())
        .map(|i| invocation.arg_at(i))
        .collect();
    assert_eq!(
        args,
        [
            "GlamorousToolkit.image",
            "st",
            "--no-quit",
            "--interactive",
            "start-gt.st"
        ]
    );
}

#[test]
fn expressions_carry_the_snapshot_directive_when_saving() {
    let app = sample_application();
    let smalltalk = Smalltalk::new(
        "bin/GlamorousToolkit-cli",
        "/tmp/ws/GlamorousToolkit.image",
        SmalltalkFlags::gtoolkit(),
        &app,
    );
    let mut evaluator = SmalltalkEvaluator::new(&smalltalk);
    evaluator.save(true);
    let expression = SmalltalkExpression::new("GtImageSetup performLocalSetup");
    let invocation = expression.create_command(&evaluator, true);
    assert_eq!(invocation.program(), "/tmp/ws/bin/GlamorousToolkit-cli");
    assert_eq!(invocation.current_dir(), "/tmp/ws");
    let args: Vec<&str> = (0..invocation.arg_count())
        .map(|i| invocation.arg_at(i))
        .collect();
    assert_eq!(
        args,
        [
            "/tmp/ws/GlamorousToolkit.image",
            "eval",
            "",
            "",
            "GtImageSetup performLocalSetup.Smalltalk snapshot: true andQuit: false"
        ]
    );
}

#[test]
fn script_runs_translate_their_flags() {
    let app = sample_application();
    let smalltalk = Smalltalk::new(
        "pharo-vm/pharo",
        "/tmp/ws/GlamorousToolkit.image",
        SmalltalkFlags::pharo(),
        &app,
    );
    let mut evaluator = SmalltalkEvaluator::new(&smalltalk);
    evaluator.save(true);
    evaluator.quit(false);
    let script = SmalltalkScriptToExecute::new("load-patches.st");
    let invocation = script.create_command(&evaluator, true);
    let args: Vec<&str> = (0..invocation.arg_count())
        .map(|i| invocation.arg_at(i))
        .collect();
    assert_eq!(
        args,
        [
            "--headless",
            "/tmp/ws/GlamorousToolkit.image",
            "st",
            "--no-quit",
            "--save",
            "",
            "load-patches.st"
        ]
    );
    assert_eq!(invocation.stdout_log(), Some("/tmp/ws/install.log"));
    assert_eq!(invocation.stderr_log(), Some("/tmp/ws/install-errors.log"));
}

#[test]
fn a_verbose_run_inherits_its_output() {
    let mut app = sample_application();
    app.set_verbose(true);
    let smalltalk = Smalltalk::new(
        "pharo-vm/pharo",
        "/tmp/ws/GlamorousToolkit.image",
        SmalltalkFlags::pharo(),
        &app,
    );
    let evaluator = SmalltalkEvaluator::new(&smalltalk);
    let invocation = evaluator.command(true);
    assert_eq!(invocation.stdout_log(), None);
    assert_eq!(invocation.stderr_log(), None);
}

#[test]
fn a_missing_workspace_falls_back_to_the_current_directory() {
    let evaluator = evaluator();
    let invocation = evaluator.command(false);
    assert_eq!(invocation.current_dir(), ".");
    assert_eq!(invocation.program(), "./bin/GlamorousToolkit-cli");
}

#[test]
fn expression_builders_join_with_dots() {
    let mut builder = SmalltalkExpressionBuilder::new();
    builder.add("a");
    builder.add("b");
    builder.add("c");
    assert_eq!(builder.build().expression(), "a.b.c");
    let empty = SmalltalkExpressionBuilder::new();
    assert_eq!(empty.build().expression(), "");
}

#[test]
fn commands_drop_empty_arguments() {
    let command = SmalltalkCommand::new("save")
        .arg("NewName")
        .arg("")
        .arg("--delete-old");
    let invocation = command.create_command(&evaluator(), true);
    let args: Vec<&str> = (0..invocation.arg_count())
        .map(|i| invocation.arg_at(i))
        .collect();
    assert_eq!(
        args,
        [
            "/tmp/ws/GlamorousToolkit.image",
            "save",
            "NewName",
            "--delete-old"
        ]
    );
}

#[test]
fn exit_status_failures_carry_the_command_line() {
    let step = SmalltalkScriptToExecute::new("loader.st");
    let invocation = step.create_command(&evaluator(), true);
    assert!(execution_result(&invocation, true).is_ok());
    let err = execution_result(&invocation, false).unwrap_err();
    let message = err.message();
    assert!(message.starts_with("Command /tmp/ws/bin/GlamorousToolkit-cli"));
    assert!(message.contains("loader.st"));
    assert!(message.ends_with("failed. See install.log or install-errors.log for more info"));
}

#[test]
fn captured_output_comes_back_trimmed() {
    let invocation = SmalltalkCommand::new("getgtoolkitversion").create_command(&evaluator(), true);
    let out = execution_output_result(&invocation, true, Some("  v1.2.3\n"), "").unwrap();
    assert_eq!(out, "v1.2.3");
    let err = execution_output_result(&invocation, false, Some(""), "no such image").unwrap_err();
    let message = err.message();
    assert!(message.starts_with("Command /tmp/ws/bin/GlamorousToolkit-cli"));
    assert!(message.ends_with("failed: no such image"));
}

#[test]
fn undecodable_captured_output_fails_and_reports_stderr() {
    let invocation = SmalltalkCommand::new("getgtoolkitversion").create_command(&evaluator(), true);
    let err = execution_output_result(&invocation, true, None, "garbled bytes").unwrap_err();
    assert!(matches!(
        &err,
        InstallerError::CommandExecutionFailedWithStderr(_, captured) if captured == "garbled bytes"
    ));
    assert!(err.message().contains("garbled bytes"));
}

#[test]
fn trimming_removes_only_the_edges() {
    assert_eq!(trim("  a b \t\r\n"), "a b");
    assert_eq!(trim(""), "");
    assert_eq!(trim("\n\n"), "");
    assert_eq!(trim("x"), "x");
}
