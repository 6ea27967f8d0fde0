use pyembed::action::Action;
use pyembed::error::DistributeError;
use pyembed::pipeline::{Fault, Outcome, Pipeline, Step};
use pyembed::request::{Architecture, DistributionRequest};

fn run(program: &str, arguments: &[&str]) -> Action {
    Action::Run {
        program: program.to_string(),
        arguments: arguments.iter().map(|argument| argument.to_string()).collect(),
    }
}

fn fetch(url: &str, path: &str) -> Action {
    Action::Fetch { url: url.to_string(), path: path.to_string() }
}

fn request(
    version: &str,
    destination: Option<&str>,
    requirements: Option<&str>,
    install: Option<&str>,
    compress: bool,
) -> DistributionRequest {
    DistributionRequest::new(
        version.to_string(),
        Some(Architecture::Amd64),
        destination.map(|text| text.to_string()),
        requirements.map(|text| text.to_string()),
        install.map(|text| text.to_string()),
        compress,
    )
}

/// Plays a whole run in which everything succeeds and returns what was asked for.
fn all_actions(request: DistributionRequest) -> Vec<Action> {
    let mut pipeline = Pipeline::begin(request).unwrap();
    let mut actions = Vec::new();
    let mut rounds = 0;
    while !pipeline.is_over() {
        actions.push(pipeline.action());
        pipeline.advance(Outcome::Succeeded);
        rounds += 1;
        assert!(rounds <= 11);
    }
    assert_eq!(pipeline.step(), Step::Finished);
    assert_eq!(pipeline.result(), Some(Ok(())));
    assert_eq!(pipeline.action(), Action::Stop);
    actions
}

/// The run of the bundle for `pyversion` with a requirements file, everything succeeding.
fn run_test(pyversion: &String) {
    let tag = {
        let mut tokens = pyversion.split('.');
        format!("python{}{}", tokens.next().unwrap(), tokens.next().unwrap())
    };
    let savepath = format!("test_{}/python-{}-embed-amd64", pyversion, pyversion);
    let windows = format!("test_{}\\python-{}-embed-amd64", pyversion, pyversion);
    let archive = format!("python-{}-embed-amd64.zip", pyversion);
    let requirements = format!("{}_requirements.txt", pyversion);
    let actions = all_actions(DistributionRequest::new(
        pyversion.clone(),
        Some(Architecture::Amd64),
        Some(savepath.clone()),
        Some(requirements.clone()),
        None,
        false,
    ));
    let expected = vec![
        Action::RequireAbsent { path: savepath.clone() },
        Action::Fetch {
            url: format!(
                "https://www.python.org/ftp/python/{}/python-{}-embed-amd64.zip",
                pyversion, pyversion
            ),
            path: archive.clone(),
        },
        Action::CreateDirectory { path: savepath.clone() },
        Action::Run {
            program: "tar".to_string(),
            arguments: vec!["-xf".to_string(), archive.clone(), "-C".to_string(), savepath.clone()],
        },
        Action::RemoveFile { path: archive.clone() },
        Action::WriteFile {
            path: format!("{}/{}._pth", savepath, tag),
            content: format!(
                "{}.zip\n.\n\n# Uncomment to run site.main() automatically\nimport site",
                tag
            ),
        },
        Action::Fetch {
            url: "https://bootstrap.pypa.io/get-pip.py".to_string(),
            path: format!("{}/get-pip.py", savepath),
        },
        Action::Run {
            program: "cmd".to_string(),
            arguments: vec![
                "/C".to_string(),
                format!("{}\\python.exe", windows),
                format!("{}\\get-pip.py", windows),
            ],
        },
        Action::Run {
            program: "cmd".to_string(),
            arguments: vec![
                "/C".to_string(),
                format!("{}\\python.exe", windows),
                "-m".to_string(),
                "pip".to_string(),
                "install".to_string(),
                "-r".to_string(),
                requirements.clone(),
            ],
        },
    ];
    assert_eq!(actions, expected);
}

#[test]
fn test_3_11_0() {
    run_test(&"3.11.0".to_string());
}

#[test]
fn test_3_10_8() {
    run_test(&"3.10.8".to_string());
}

#[test]
fn test_3_9_13() {
    run_test(&"3.9.13".to_string());
}

#[test]
fn test_3_8_10() {
    run_test(&"3.8.10".to_string());
}

#[test]
fn test_3_7_9() {
    run_test(&"3.7.9".to_string());
}

#[test]
fn plain_bundle_writes_the_search_path_file() {
    let actions = all_actions(request("3.11.0", None, None, None, false));
    assert_eq!(actions.len(), 8);
    assert_eq!(
        actions[5],
        Action::WriteFile {
            path: "./python-3.11.0-embed-amd64/python311._pth".to_string(),
            content: "python311.zip\n.\n\n# Uncomment to run site.main() automatically\nimport site"
                .to_string(),
        }
    );
    assert_eq!(
        actions[7],
        run(
            "cmd",
            &[
                "/C",
                ".\\python-3.11.0-embed-amd64\\python.exe",
                ".\\python-3.11.0-embed-amd64\\get-pip.py"
            ]
        )
    );
}

#[test]
fn plain_bundle_asks_for_each_action_in_order() {
    let actions = all_actions(request("3.11.0", Some("out/py"), None, None, false));
    let expected = vec![
        Action::RequireAbsent { path: "out/py".to_string() },
        fetch(
            "https://www.python.org/ftp/python/3.11.0/python-3.11.0-embed-amd64.zip",
            "python-3.11.0-embed-amd64.zip",
        ),
        Action::CreateDirectory { path: "out/py".to_string() },
        run("tar", &["-xf", "python-3.11.0-embed-amd64.zip", "-C", "out/py"]),
        Action::RemoveFile { path: "python-3.11.0-embed-amd64.zip".to_string() },
        Action::WriteFile {
            path: "out/py/python311._pth".to_string(),
            content: "python311.zip\n.\n\n# Uncomment to run site.main() automatically\nimport site"
                .to_string(),
        },
        fetch("https://bootstrap.pypa.io/get-pip.py", "out/py/get-pip.py"),
        run("cmd", &["/C", "out\\py\\python.exe", "out\\py\\get-pip.py"]),
    ];
    assert_eq!(actions, expected);
}

#[test]
fn requirements_file_is_installed_after_the_package_manager() {
    let actions = all_actions(request("3.10.8", Some("out/py"), Some("reqs/numpy.txt"), None, false));
    assert_eq!(actions.len(), 9);
    assert_eq!(
        actions[8],
        run(
            "cmd",
            &["/C", "out\\py\\python.exe", "-m", "pip", "install", "-r", "reqs\\numpy.txt"]
        )
    );
}

#[test]
fn inline_list_is_installed_when_no_file_is_given() {
    let actions = all_actions(request("3.10.8", Some("out/py"), None, Some("numpy scipy"), false));
    assert_eq!(actions.len(), 9);
    assert_eq!(
        actions[8],
        run("cmd", &["/C", "out\\py\\python.exe", "-m", "pip", "install", "numpy scipy"])
    );
}

#[test]
fn inline_list_is_never_run_beside_a_requirements_file() {
    let both = all_actions(request("3.10.8", Some("out/py"), Some("req.txt"), Some("numpy"), false));
    let alone = all_actions(request("3.10.8", Some("out/py"), Some("req.txt"), None, false));
    assert_eq!(both, alone);
    for action in both.iter() {
        if let Action::Run { arguments, .. } = action {
            assert!(!arguments.contains(&"numpy".to_string()));
        }
    }
}

#[test]
fn packed_bundle_is_archived_and_removed() {
    let actions = all_actions(request("3.9.13", None, None, None, true));
    assert_eq!(actions.len(), 10);
    assert_eq!(
        actions[8],
        run(
            "tar.exe",
            &["-C", ".\\python-3.9.13-embed-amd64", "-caf", "python-3.9.13-embed-amd64.zip", "*"]
        )
    );
    assert_eq!(
        actions[9],
        Action::RemoveDirectory { path: ".\\python-3.9.13-embed-amd64".to_string() }
    );
}

#[test]
fn packing_follows_the_installation() {
    let actions = all_actions(request("3.9.13", Some("a/b/c"), None, Some("requests"), true));
    assert_eq!(actions.len(), 11);
    assert_eq!(
        actions[8],
        run("cmd", &["/C", "a\\b\\c\\python.exe", "-m", "pip", "install", "requests"])
    );
    assert_eq!(actions[9], run("tar.exe", &["-C", "a\\b\\c", "-caf", "c.zip", "*"]));
    assert_eq!(actions[10], Action::RemoveDirectory { path: "a\\b\\c".to_string() });
}

#[test]
fn ill_formed_version_starts_no_run() {
    for version in ["3.11", "3.11.0.1", "", "3..0"] {
        let started = Pipeline::begin(request(version, None, None, None, false));
        assert_eq!(started.err(), Some(DistributeError::InvalidVersionFormat));
    }
}

#[test]
fn fresh_run_looks_at_the_destination_first() {
    let pipeline = Pipeline::begin(request("3.11.0", Some("out/py"), None, None, false)).unwrap();
    assert_eq!(pipeline.step(), Step::ProbeDestination);
    assert_eq!(pipeline.result(), None);
    assert!(!pipeline.is_over());
    assert_eq!(pipeline.action(), Action::RequireAbsent { path: "out/py".to_string() });
    assert_eq!(pipeline.request().destination, "out/py");
}

#[test]
fn occupied_destination_fails_before_anything_is_fetched() {
    let mut pipeline = Pipeline::begin(request("3.11.0", Some("out/py"), None, None, true)).unwrap();
    let first = pipeline.action();
    assert_eq!(first, Action::RequireAbsent { path: "out/py".to_string() });
    pipeline.advance(Outcome::Failed(Fault::Occupied));
    assert_eq!(pipeline.step(), Step::Failed(DistributeError::DestinationAlreadyExists));
    assert_eq!(pipeline.result(), Some(Err(DistributeError::DestinationAlreadyExists)));
    assert!(pipeline.is_over());
    assert_eq!(pipeline.action(), Action::Stop);
}

#[test]
fn failed_run_stays_failed() {
    let mut pipeline = Pipeline::begin(request("3.11.0", None, None, None, false)).unwrap();
    pipeline.advance(Outcome::Failed(Fault::Occupied));
    for outcome in [
        Outcome::Succeeded,
        Outcome::Failed(Fault::Network),
        Outcome::Failed(Fault::Launch),
        Outcome::Succeeded,
    ] {
        pipeline.advance(outcome);
        assert_eq!(pipeline.step(), Step::Failed(DistributeError::DestinationAlreadyExists));
        assert_eq!(pipeline.action(), Action::Stop);
    }
}

#[test]
fn finished_run_stays_finished() {
    let mut pipeline = Pipeline::begin(request("3.11.0", None, None, None, false)).unwrap();
    for _ in 0..8 {
        pipeline.advance(Outcome::Succeeded);
    }
    assert_eq!(pipeline.step(), Step::Finished);
    pipeline.advance(Outcome::Failed(Fault::Storage));
    assert_eq!(pipeline.step(), Step::Finished);
    pipeline.advance(Outcome::Succeeded);
    assert_eq!(pipeline.step(), Step::Finished);
}

/// The step at which a run stands after `successes` actions went well and the next met `fault`.
fn fail_after(successes: usize, fault: Fault) -> Step {
    let mut pipeline =
        Pipeline::begin(request("3.11.0", Some("out/py"), Some("req.txt"), None, true)).unwrap();
    for _ in 0..successes {
        pipeline.advance(Outcome::Succeeded);
    }
    pipeline.advance(Outcome::Failed(fault));
    pipeline.step()
}

#[test]
fn unreachable_host_is_a_network_failure() {
    assert_eq!(fail_after(1, Fault::Network), Step::Failed(DistributeError::NetworkFailure));
    assert_eq!(fail_after(6, Fault::Network), Step::Failed(DistributeError::NetworkFailure));
}

#[test]
fn unwritable_file_is_a_write_failure() {
    assert_eq!(fail_after(1, Fault::Storage), Step::Failed(DistributeError::WriteFailure));
    assert_eq!(fail_after(2, Fault::Storage), Step::Failed(DistributeError::WriteFailure));
    assert_eq!(fail_after(4, Fault::Storage), Step::Failed(DistributeError::WriteFailure));
    assert_eq!(fail_after(5, Fault::Storage), Step::Failed(DistributeError::WriteFailure));
    assert_eq!(fail_after(6, Fault::Storage), Step::Failed(DistributeError::WriteFailure));
    assert_eq!(fail_after(10, Fault::Storage), Step::Failed(DistributeError::WriteFailure));
}

#[test]
fn unpacker_that_cannot_start_is_an_extraction_failure() {
    assert_eq!(fail_after(3, Fault::Launch), Step::Failed(DistributeError::ExtractionFailure));
}

#[test]
fn other_programs_that_cannot_start_are_spawn_failures() {
    assert_eq!(fail_after(7, Fault::Launch), Step::Failed(DistributeError::ProcessSpawnFailure));
    assert_eq!(fail_after(8, Fault::Launch), Step::Failed(DistributeError::ProcessSpawnFailure));
    assert_eq!(fail_after(9, Fault::Launch), Step::Failed(DistributeError::ProcessSpawnFailure));
}

#[test]
fn bundle_is_kept_when_the_packer_cannot_start() {
    let mut pipeline = Pipeline::begin(request("3.9.13", None, None, None, true)).unwrap();
    for _ in 0..8 {
        pipeline.advance(Outcome::Succeeded);
    }
    assert_eq!(pipeline.step(), Step::Compress);
    pipeline.advance(Outcome::Failed(Fault::Launch));
    assert_eq!(pipeline.step(), Step::Failed(DistributeError::ProcessSpawnFailure));
    assert_eq!(pipeline.action(), Action::Stop);
}

#[test]
fn failing_exit_status_stops_no_run() {
    let mut pipeline =
        Pipeline::begin(request("3.9.13", Some("out/py"), None, Some("numpy"), true)).unwrap();
    let mut actions = Vec::new();
    while !pipeline.is_over() {
        let action = pipeline.action();
        let outcome = match action {
            Action::Run { .. } => Outcome::ExitedWithFailure,
            _ => Outcome::Succeeded,
        };
        actions.push(action);
        pipeline.advance(outcome);
    }
    assert_eq!(pipeline.result(), Some(Ok(())));
    assert_eq!(actions, all_actions(request("3.9.13", Some("out/py"), None, Some("numpy"), true)));
}

#[test]
fn bundle_is_removed_even_when_the_packer_reports_failure() {
    let mut pipeline = Pipeline::begin(request("3.9.13", Some("out/py"), None, None, true)).unwrap();
    for _ in 0..8 {
        pipeline.advance(Outcome::Succeeded);
    }
    assert_eq!(pipeline.action(), run("tar.exe", &["-C", "out\\py", "-caf", "py.zip", "*"]));
    pipeline.advance(Outcome::ExitedWithFailure);
    assert_eq!(pipeline.step(), Step::RemoveBundle);
    assert_eq!(pipeline.action(), Action::RemoveDirectory { path: "out\\py".to_string() });
    pipeline.advance(Outcome::Succeeded);
    assert_eq!(pipeline.result(), Some(Ok(())));
}

#[test]
fn steps_follow_one_another() {
    let order = [
        Step::ProbeDestination,
        Step::FetchRuntime,
        Step::CreateDestination,
        Step::Unpack,
        Step::DiscardArchive,
        Step::WriteSearchPath,
        Step::FetchBootstrapper,
        Step::RunBootstrapper,
        Step::InstallDependencies,
        Step::Compress,
        Step::RemoveBundle,
        Step::Finished,
    ];
    for i in 0..order.len() - 1 {
        assert_eq!(order[i].advance(Outcome::Succeeded, true, true), order[i + 1]);
        assert_eq!(order[i].advance(Outcome::ExitedWithFailure, true, true), order[i + 1]);
        assert!(!order[i].is_over());
    }
    assert!(Step::Finished.is_over());
    assert!(Step::Failed(DistributeError::WriteFailure).is_over());
    assert_eq!(Step::RunBootstrapper.advance(Outcome::Succeeded, false, true), Step::Compress);
    assert_eq!(Step::RunBootstrapper.advance(Outcome::Succeeded, false, false), Step::Finished);
    assert_eq!(Step::InstallDependencies.advance(Outcome::Succeeded, true, false), Step::Finished);
    assert_eq!(
        Step::Failed(DistributeError::NetworkFailure).advance(Outcome::Succeeded, true, true),
        Step::Failed(DistributeError::NetworkFailure)
    );
}

#[test]
fn replay_notes_the_actions_and_ends_where_the_run_ends() {
    let mut pipeline =
        Pipeline::begin(request("3.11.0", Some("out/py"), None, None, false)).unwrap();
    let outcomes = vec![Outcome::Succeeded, Outcome::Succeeded, Outcome::Failed(Fault::Storage), Outcome::Succeeded];
    let actions = pipeline.replay(&outcomes);
    assert_eq!(
        actions,
        vec![
            Action::RequireAbsent { path: "out/py".to_string() },
            fetch(
                "https://www.python.org/ftp/python/3.11.0/python-3.11.0-embed-amd64.zip",
                "python-3.11.0-embed-amd64.zip",
            ),
            Action::CreateDirectory { path: "out/py".to_string() },
            Action::Stop,
        ]
    );
    assert_eq!(pipeline.step(), Step::Failed(DistributeError::WriteFailure));
    assert_eq!(pipeline.replay(&Vec::new()), Vec::new());
}

#[test]
fn second_run_fails_at_the_destination() {
    let again = request("3.11.0", Some("out/py"), Some("req.txt"), None, false);
    let mut first = Pipeline::begin(again.clone()).unwrap();
    let mut stands = false;
    while !first.is_over() {
        let action = first.action();
        let outcome = match &action {
            Action::RequireAbsent { .. } if stands => Outcome::Failed(Fault::Occupied),
            _ => Outcome::Succeeded,
        };
        if let Action::CreateDirectory { .. } = action {
            stands = true;
        }
        if let Action::RemoveDirectory { .. } = action {
            stands = false;
        }
        first.advance(outcome);
    }
    assert_eq!(first.result(), Some(Ok(())));
    assert!(stands);

    let mut second = Pipeline::begin(again).unwrap();
    let asked = second.action();
    assert_eq!(asked, Action::RequireAbsent { path: "out/py".to_string() });
    second.advance(if stands { Outcome::Failed(Fault::Occupied) } else { Outcome::Succeeded });
    assert_eq!(second.result(), Some(Err(DistributeError::DestinationAlreadyExists)));
    assert_eq!(second.action(), Action::Stop);
}
