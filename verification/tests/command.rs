use golemsp::command::{
    Candidate, CommandSpec, Completion, Id, LinkWalk, ProcessResult, WalkStep, YaCommand,
    YaProviderCommand, YagnaCommand, MAX_LINK_HOPS,
};
use golemsp::command::yagna::json_reply;
use golemsp::error::{CommandError, DecodeError, ExecutionError, LocationError};
use golemsp::network::{LookupError, NetworkName, PaymentDriver};
use golemsp::text::{followed_by, join_path, str_eq};

fn strings(list: &[&str]) -> Vec<String> {
    list.iter().map(|s| s.to_string()).collect()
}

fn located(base: &str) -> YaCommand {
    YaCommand::new(Some(base.to_string()), true, true).unwrap()
}

fn on_path() -> YaCommand {
    YaCommand::new(Some("/usr/bin".to_string()), false, false).unwrap()
}

#[test]
fn strings_are_equal_where_their_characters_are() {
    assert!(str_eq("", ""));
    assert!(str_eq("Terminated", "Terminated"));
    assert!(!str_eq("Terminated", "terminated"));
    assert!(!str_eq("New", "News"));
    assert!(!str_eq("News", "New"));
    assert!(str_eq("zażółć", "zażółć"));
    assert!(!str_eq("zażółć", "zazolc"));
    assert_eq!(followed_by("ab", "cd"), "abcd");
    assert_eq!(followed_by("", ""), "");
}

#[test]
fn a_name_goes_under_a_directory_with_one_separator() {
    assert_eq!(join_path("/usr/bin", "yagna"), "/usr/bin/yagna");
    assert_eq!(join_path("/usr/bin/", "yagna"), "/usr/bin/yagna");
    assert_eq!(join_path("/", "yagna"), "/yagna");
    assert_eq!(join_path("", "yagna"), "yagna");
    assert_eq!(join_path("rel", "ya-provider"), "rel/ya-provider");
    assert_eq!(join_path("/home/łukasz", "yagna"), "/home/łukasz/yagna");
}

#[test]
fn both_companions_found_are_run_from_their_directory() {
    let ya = located("/opt/golem/bin");
    assert_eq!(ya.base_path(), Some("/opt/golem/bin"));
    assert_eq!(ya.cmd("yagna").program, "/opt/golem/bin/yagna");
    assert_eq!(ya.cmd("ya-provider").program, "/opt/golem/bin/ya-provider");
    assert_eq!(ya.cmd("yagna").args, Vec::<String>::new());
    assert_eq!(ya.cmd("yagna").env, Vec::<(String, String)>::new());
}

#[test]
fn a_missing_companion_leaves_both_to_the_search_path() {
    for (yagna, provider) in [(false, false), (true, false), (false, true)] {
        let ya = YaCommand::new(Some("/opt/golem/bin".to_string()), yagna, provider).unwrap();
        assert_eq!(ya.base_path(), None);
        assert_eq!(ya.cmd("yagna").program, "yagna");
        assert_eq!(ya.cmd("ya-provider").program, "ya-provider");
    }
}

#[test]
fn the_same_findings_give_the_same_place() {
    for (yagna, provider) in [(false, false), (true, false), (false, true), (true, true)] {
        let first = YaCommand::new(Some("/opt/golem/bin".to_string()), yagna, provider);
        let second = YaCommand::new(Some("/opt/golem/bin".to_string()), yagna, provider);
        assert_eq!(first, second);
    }
}

#[test]
fn a_binary_without_a_place_is_an_error() {
    assert_eq!(YaCommand::new(None, true, true), Err(LocationError::NoParent));
    assert_eq!(YaCommand::new(None, false, false), Err(LocationError::NoParent));
    assert_eq!(LinkWalk::start(None), Err(LocationError::NoExecutable));
}

#[test]
fn a_path_that_is_no_link_is_where_the_walk_ends() {
    let walk = LinkWalk::start(Some("/usr/bin/golemsp".to_string())).unwrap();
    assert_eq!(walk, LinkWalk { path: "/usr/bin/golemsp".to_string(), hops: 0 });
    assert_eq!(walk.advance(None), WalkStep::Settled("/usr/bin/golemsp".to_string()));
}

#[test]
fn links_are_followed_five_times_and_no_more() {
    assert_eq!(MAX_LINK_HOPS, 5);
    let mut walk = LinkWalk::start(Some("l0".to_string())).unwrap();
    let mut followed = 0;
    let end = loop {
        followed += 1;
        match walk.advance(Some(format!("l{}", followed))) {
            WalkStep::Follow(next) => {
                assert_eq!(next, LinkWalk { path: format!("l{}", followed), hops: followed });
                walk = next;
            }
            WalkStep::Settled(path) => break path,
        }
    };
    assert_eq!(followed, 5);
    assert_eq!(end, "l5");
}

#[test]
fn a_chain_of_links_ends_at_the_first_file() {
    let walk = LinkWalk::start(Some("a".to_string())).unwrap();
    let walk = match walk.advance(Some("b".to_string())) {
        WalkStep::Follow(next) => next,
        WalkStep::Settled(_) => panic!("one link is within the bound"),
    };
    assert_eq!(walk.advance(None), WalkStep::Settled("b".to_string()));
    let spent = LinkWalk { path: "z".to_string(), hops: 9 };
    assert_eq!(spent.advance(Some("y".to_string())), WalkStep::Settled("y".to_string()));
}

#[test]
fn the_provider_is_told_of_its_plugins_where_they_exist() {
    assert_eq!(YaCommand::plugins_dir("/home/golem"), "/home/golem/.local/lib/yagna/plugins");
    assert_eq!(YaCommand::plugins_dir("/"), "/.local/lib/yagna/plugins");
    let ya = located("/opt/bin");
    let with = ya.ya_provider(Some("/home/golem/.local/lib/yagna/plugins")).unwrap();
    assert_eq!(
        with,
        YaProviderCommand {
            cmd: CommandSpec {
                program: "/opt/bin/ya-provider".to_string(),
                args: Vec::new(),
                env: vec![(
                    "EXE_UNIT_PATH".to_string(),
                    "/home/golem/.local/lib/yagna/plugins/ya-*.json".to_string()
                )],
            }
        }
    );
    let without = on_path().ya_provider(None).unwrap();
    assert_eq!(
        without,
        YaProviderCommand {
            cmd: CommandSpec { program: "ya-provider".to_string(), args: Vec::new(), env: Vec::new() }
        }
    );
}

#[test]
fn the_daemon_gets_no_environment() {
    assert_eq!(
        on_path().yagna(),
        Ok(YagnaCommand {
            cmd: CommandSpec { program: "yagna".to_string(), args: Vec::new(), env: Vec::new() }
        })
    );
    assert_eq!(located("/opt/bin").yagna().unwrap().cmd.program, "/opt/bin/yagna");
}

#[test]
fn arguments_are_kept_in_order() {
    let mut spec = CommandSpec::new("yagna".to_string());
    assert_eq!(spec.program, "yagna");
    spec.arg("b");
    spec.arg("a");
    spec.arg("b");
    assert_eq!(spec.args, strings(&["b", "a", "b"]));
    assert_eq!(spec.env, Vec::new());
}

#[test]
fn each_question_has_its_arguments() {
    let yagna = || on_path().yagna().unwrap();
    assert_eq!(yagna().default_id().cmd.args, strings(&["id", "show", "--json"]));
    assert_eq!(yagna().version().cmd.args, strings(&["version", "show", "--json"]));
    assert_eq!(yagna().version_raw().cmd.args, strings(&["--version"]));
    assert_eq!(
        yagna().invoice_status().cmd.args,
        strings(&["payment", "invoice", "status", "--json"])
    );
    assert_eq!(yagna().activity_status().cmd.args, strings(&["activity", "status", "--json"]));
    assert_eq!(yagna().run_json().cmd.args, strings(&["--json"]));
    assert_eq!(yagna().default_id().cmd.program, "yagna");
    let provider = on_path().ya_provider(None).unwrap();
    assert_eq!(provider.get_config().cmd.args, strings(&["--json", "config", "get"]));
}

#[test]
fn questions_add_to_the_arguments_that_are_there() {
    let mut cmd = CommandSpec::new("yagna".to_string());
    cmd.arg("--debug");
    cmd.env.push(("RUST_LOG".to_string(), "debug".to_string()));
    let query = YagnaCommand { cmd }.activity_status();
    assert_eq!(query.cmd.args, strings(&["--debug", "activity", "status", "--json"]));
    assert_eq!(query.cmd.env, vec![("RUST_LOG".to_string(), "debug".to_string())]);
}

#[test]
fn payment_status_names_account_network_and_driver() {
    let query = on_path()
        .yagna()
        .unwrap()
        .payment_status("0xabc", &NetworkName::Mumbai, &PaymentDriver::erc20())
        .unwrap();
    assert_eq!(
        query.cmd.args,
        strings(&[
            "payment", "status", "--account", "0xabc", "--network", "mumbai", "--driver", "erc20",
            "--json"
        ])
    );
    let query = on_path()
        .yagna()
        .unwrap()
        .payment_status("0xabc", &NetworkName::Rinkeby, &PaymentDriver::zksync())
        .unwrap();
    assert_eq!(
        query.cmd.args,
        strings(&[
            "payment", "status", "--account", "0xabc", "--network", "rinkeby", "--driver", "zksync",
            "--json"
        ])
    );
}

#[test]
fn payment_status_on_a_network_without_a_driver_is_an_error() {
    let query = on_path().yagna().unwrap().payment_status(
        "0xabc",
        &NetworkName::Polygon,
        &PaymentDriver::zksync(),
    );
    assert_eq!(query, Err(CommandError::Lookup(LookupError { network: NetworkName::Polygon })));
}

#[test]
fn a_process_that_exits_with_success_gives_its_output() {
    let query = on_path().yagna().unwrap().activity_status();
    let completion =
        Completion::Exited { success: true, stdout: b"{}".to_vec(), stderr: b"warn".to_vec() };
    assert_eq!(query.run(completion), Ok(b"{}".to_vec()));
    let spec = CommandSpec::new("x".to_string());
    let completion = Completion::Exited { success: true, stdout: Vec::new(), stderr: Vec::new() };
    assert_eq!(spec.result(completion), ProcessResult::Success { stdout: Vec::new() });
}

#[test]
fn a_process_that_exits_with_failure_keeps_command_and_streams() {
    let query = on_path().yagna().unwrap().activity_status();
    let command = CommandSpec {
        program: "yagna".to_string(),
        args: strings(&["activity", "status", "--json"]),
        env: Vec::new(),
    };
    let completion = Completion::Exited {
        success: false,
        stdout: b"{\"partial\":".to_vec(),
        stderr: b"Error: connection refused".to_vec(),
    };
    assert_eq!(
        query.run(completion),
        Err(CommandError::Execution(ExecutionError::Exit {
            command,
            stdout: b"{\"partial\":".to_vec(),
            stderr: b"Error: connection refused".to_vec(),
        }))
    );
}

#[test]
fn a_process_that_did_not_start_keeps_command_and_reason() {
    let provider = on_path().ya_provider(None).unwrap().get_config();
    let command = CommandSpec {
        program: "ya-provider".to_string(),
        args: strings(&["--json", "config", "get"]),
        env: Vec::new(),
    };
    let completion = Completion::NotStarted { reason: "No such file or directory".to_string() };
    assert_eq!(
        provider.run(completion),
        Err(CommandError::Execution(ExecutionError::Spawn {
            command,
            reason: "No such file or directory".to_string(),
        }))
    );
}

#[test]
fn the_provider_agent_is_held_to_its_exit_status_too() {
    let provider = on_path().ya_provider(None).unwrap().get_config();
    let completion =
        Completion::Exited { success: false, stdout: b"{}".to_vec(), stderr: Vec::new() };
    assert!(matches!(
        provider.run(completion),
        Err(CommandError::Execution(ExecutionError::Exit { .. }))
    ));
    let provider = on_path().ya_provider(None).unwrap().get_config();
    let completion =
        Completion::Exited { success: true, stdout: b"{}".to_vec(), stderr: Vec::new() };
    assert_eq!(provider.run(completion), Ok(b"{}".to_vec()));
}

#[test]
fn the_daemon_may_refuse_to_name_the_node() {
    let id = Id { node_id: "0x0123".to_string() };
    assert_eq!(Id::from_reply(Ok(id)), Ok(Id { node_id: "0x0123".to_string() }));
    assert_eq!(
        Id::from_reply(Err("no default identity".to_string())),
        Err(CommandError::Remote("no default identity".to_string()))
    );
}

#[test]
fn json_that_does_not_parse_is_kept_in_the_error() {
    let parsed: Result<u32, String> = Ok(7);
    assert_eq!(json_reply(parsed, b"7".to_vec()), Ok(7));
    let parsed: Result<u32, String> = Err("expected value at line 1 column 1".to_string());
    assert_eq!(
        json_reply(parsed, b"oops".to_vec()),
        Err(CommandError::Decode(DecodeError::Json {
            output: b"oops".to_vec(),
            reason: "expected value at line 1 column 1".to_string(),
        }))
    );
}

#[test]
fn every_kind_of_error_has_its_place_among_the_errors() {
    assert_eq!(
        CommandError::from(LocationError::NoParent),
        CommandError::Location(LocationError::NoParent)
    );
    assert_eq!(
        CommandError::from(LocationError::NoExecutable),
        CommandError::Location(LocationError::NoExecutable)
    );
    let missing = LookupError { network: NetworkName::Goerli };
    assert_eq!(CommandError::from(missing), CommandError::Lookup(missing));
    assert_eq!(
        CommandError::from(DecodeError::Banner { output: b"x".to_vec() }),
        CommandError::Decode(DecodeError::Banner { output: b"x".to_vec() })
    );
    assert_eq!(CommandError::from(DecodeError::Pattern), CommandError::Decode(DecodeError::Pattern));
    let spawn = || ExecutionError::Spawn {
        command: CommandSpec::new("yagna".to_string()),
        reason: "denied".to_string(),
    };
    assert_eq!(CommandError::from(spawn()), CommandError::Execution(spawn()));
}

#[test]
fn the_companions_are_looked_for_under_the_binary_s_directory() {
    assert_eq!(
        YaCommand::companions("/opt/golem/bin"),
        ("/opt/golem/bin/yagna".to_string(), "/opt/golem/bin/ya-provider".to_string())
    );
    assert_eq!(YaCommand::companions(""), ("yagna".to_string(), "ya-provider".to_string()));
    let (yagna, provider) = YaCommand::companions("/opt/bin");
    let ya = located("/opt/bin");
    assert_eq!(ya.cmd("yagna").program, yagna);
    assert_eq!(ya.cmd("ya-provider").program, provider);
}

#[test]
fn a_variable_is_set_once_and_keeps_its_place() {
    let pair = |k: &str, v: &str| (k.to_string(), v.to_string());
    let mut spec = CommandSpec::new("ya-provider".to_string());
    spec.set_env("EXE_UNIT_PATH", "/a/ya-*.json");
    assert_eq!(spec.env, vec![pair("EXE_UNIT_PATH", "/a/ya-*.json")]);
    spec.set_env("RUST_LOG", "debug");
    spec.set_env("HOME", "/root");
    spec.set_env("RUST_LOG", "info");
    assert_eq!(
        spec.env,
        vec![pair("EXE_UNIT_PATH", "/a/ya-*.json"), pair("RUST_LOG", "info"), pair("HOME", "/root")]
    );
    spec.set_env("EXE_UNIT_PATH", "");
    assert_eq!(
        spec.env,
        vec![pair("EXE_UNIT_PATH", ""), pair("RUST_LOG", "info"), pair("HOME", "/root")]
    );
    assert_eq!(spec.args, Vec::<String>::new());
    assert_eq!(spec.program, "ya-provider");
}

#[test]
fn the_binary_s_directory_is_the_one_above_its_path() {
    assert_eq!(
        YaCommand::candidate("/opt/golem/bin/golemsp"),
        Ok(Candidate {
            dir: "/opt/golem/bin".to_string(),
            yagna: "/opt/golem/bin/yagna".to_string(),
            provider: "/opt/golem/bin/ya-provider".to_string(),
        })
    );
    assert_eq!(
        YaCommand::candidate("/golemsp"),
        Ok(Candidate {
            dir: "/".to_string(),
            yagna: "/yagna".to_string(),
            provider: "/ya-provider".to_string(),
        })
    );
    assert_eq!(
        YaCommand::candidate("golemsp"),
        Ok(Candidate {
            dir: "".to_string(),
            yagna: "yagna".to_string(),
            provider: "ya-provider".to_string(),
        })
    );
    assert_eq!(
        YaCommand::candidate("bin/../golemsp"),
        Ok(Candidate {
            dir: "bin/..".to_string(),
            yagna: "bin/../yagna".to_string(),
            provider: "bin/../ya-provider".to_string(),
        })
    );
}

#[test]
fn a_path_with_nothing_above_it_has_no_directory() {
    assert_eq!(YaCommand::candidate("/"), Err(LocationError::NoParent));
    assert_eq!(YaCommand::candidate(""), Err(LocationError::NoParent));
}

#[test]
fn what_is_found_in_the_directory_decides() {
    let candidate = YaCommand::candidate("/opt/golem/bin/golemsp").unwrap();
    let ya = YaCommand::new(Some(candidate.dir), true, true).unwrap();
    assert_eq!(ya.cmd("yagna").program, candidate.yagna);
    assert_eq!(ya.cmd("ya-provider").program, candidate.provider);
}
