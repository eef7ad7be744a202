use early_boot_config::gomod::error::Error;
use early_boot_config::gomod::{
    docker_go, docker_go_args, extract_file_name, getenv, go_env, join, last_segment, Bundle,
    DockerGoArgs, ExternalFile, GoMod, InputProbe, SDK_IMAGE_VAR,
};

fn manifest(url: &str) -> ExternalFile {
    ExternalFile {
        url: url.to_string(),
        path: None,
        bundle_path: Some("src/module".to_string()),
        bundle_output_path: Some("bundled-module.tar.gz".to_string()),
    }
}

fn probe(components: usize, is_file: bool) -> InputProbe {
    InputProbe { components, path: "/pkg/module.tar.gz".to_string(), is_file }
}

fn bundle() -> Bundle {
    Bundle {
        input: "module.tar.gz".to_string(),
        mod_dir: "src/module".to_string(),
        output: "bundled-module.tar.gz".to_string(),
    }
}

fn args() -> DockerGoArgs {
    DockerGoArgs {
        module_dir: "/pkg".to_string(),
        sdk_image: "sdk:v1".to_string(),
        go_mod_cache: "/root/.gomodcache".to_string(),
        command: "go mod vendor".to_string(),
    }
}

#[test]
fn file_name_is_the_last_path_segment() {
    assert_eq!(
        extract_file_name("https://example.com/downloads/v1/module.tar.gz"),
        Ok("module.tar.gz".to_string())
    );
    assert_eq!(extract_file_name("https://example.com/module.tar.gz"), Ok("module.tar.gz".to_string()));
    assert_eq!(extract_file_name("file:///tmp/a/b.tgz"), Ok("b.tgz".to_string()));
}

#[test]
fn file_name_leaves_query_and_fragment_out() {
    assert_eq!(
        extract_file_name("https://example.com/a/module.tar.gz?token=1&x=/y#part/one"),
        Ok("module.tar.gz".to_string())
    );
}

#[test]
fn file_name_stays_percent_encoded() {
    assert_eq!(
        extract_file_name("https://example.com/a/my module.tar.gz"),
        Ok("my%20module.tar.gz".to_string())
    );
}

#[test]
fn file_name_of_a_path_that_ends_in_a_slash_is_empty() {
    assert_eq!(extract_file_name("https://example.com/a/"), Ok(String::new()));
    assert_eq!(extract_file_name("https://example.com"), Ok(String::new()));
}

#[test]
fn file_name_follows_the_normalised_path() {
    assert_eq!(extract_file_name("https://example.com/a/b/../c.tar.gz"), Ok("c.tar.gz".to_string()));
}

#[test]
fn what_is_no_url_is_refused_with_the_parser_message() {
    assert_eq!(
        extract_file_name("module.tar.gz"),
        Err(Error::InputUrl {
            url: "module.tar.gz".to_string(),
            reason: "relative URL without a base".to_string(),
        })
    );
    assert_eq!(
        extract_file_name("https://"),
        Err(Error::InputUrl { url: "https://".to_string(), reason: "empty host".to_string() })
    );
    assert_eq!(
        extract_file_name("https://example.com:99999/x"),
        Err(Error::InputUrl {
            url: "https://example.com:99999/x".to_string(),
            reason: "invalid port number".to_string(),
        })
    );
}

#[test]
fn url_that_cannot_be_a_base_names_no_file() {
    assert_eq!(
        extract_file_name("data:text/plain,HelloWorld"),
        Err(Error::InputFileBad { path: "data:text/plain,HelloWorld".to_string() })
    );
    assert_eq!(
        extract_file_name("mailto:someone@example.com"),
        Err(Error::InputFileBad { path: "mailto:someone@example.com".to_string() })
    );
}

#[test]
fn last_segment_takes_the_last_of_the_segments() {
    let segments = vec!["a".to_string(), "b".to_string(), "c.tar.gz".to_string()];
    assert_eq!(last_segment(Some(segments), "u"), Ok("c.tar.gz".to_string()));
    assert_eq!(last_segment(Some(vec![String::new()]), "u"), Ok(String::new()));
    assert_eq!(last_segment(Some(vec![]), "u"), Err(Error::InputFileBad { path: "u".to_string() }));
    assert_eq!(last_segment(None, "u"), Err(Error::InputFileBad { path: "u".to_string() }));
}

#[test]
fn input_is_named_by_the_url_unless_the_manifest_names_it() {
    let mut gomod = manifest("https://example.com/a/module.tar.gz");
    assert_eq!(GoMod::input(&gomod), Ok("module.tar.gz".to_string()));
    gomod.path = Some("renamed.tar.gz".to_string());
    assert_eq!(GoMod::input(&gomod), Ok("renamed.tar.gz".to_string()));
}

#[test]
fn input_wants_a_url_that_names_a_file_even_where_the_manifest_names_the_input() {
    let mut gomod = manifest("not a url");
    gomod.path = Some("renamed.tar.gz".to_string());
    assert_eq!(
        GoMod::input(&gomod),
        Err(Error::InputUrl {
            url: "not a url".to_string(),
            reason: "relative URL without a base".to_string(),
        })
    );
    gomod.url = "data:text/plain,x".to_string();
    assert_eq!(
        GoMod::input(&gomod),
        Err(Error::InputFileBad { path: "data:text/plain,x".to_string() })
    );
}

#[test]
fn bundle_of_an_input_that_is_in_order() {
    let gomod = manifest("https://example.com/module.tar.gz");
    assert_eq!(GoMod::bundle(&gomod, "module.tar.gz".to_string(), &probe(1, true)), Ok(bundle()));
}

#[test]
fn bundle_wants_a_single_path_component() {
    let gomod = manifest("https://example.com/module.tar.gz");
    for components in [0, 2, 3] {
        assert_eq!(
            GoMod::bundle(&gomod, "a/module.tar.gz".to_string(), &probe(components, true)),
            Err(Error::InputFile)
        );
    }
}

#[test]
fn bundle_wants_a_file() {
    let gomod = manifest("https://example.com/module.tar.gz");
    assert_eq!(
        GoMod::bundle(&gomod, "module.tar.gz".to_string(), &probe(1, false)),
        Err(Error::InputFileBad { path: "/pkg/module.tar.gz".to_string() })
    );
}

#[test]
fn bundle_wants_the_module_directory_and_the_output() {
    let mut gomod = manifest("https://example.com/module.tar.gz");
    gomod.bundle_output_path = None;
    assert_eq!(
        GoMod::bundle(&gomod, "module.tar.gz".to_string(), &probe(1, true)),
        Err(Error::OutputDir)
    );
    gomod.bundle_path = None;
    assert_eq!(
        GoMod::bundle(&gomod, "module.tar.gz".to_string(), &probe(1, true)),
        Err(Error::ModDir)
    );
    gomod.bundle_output_path = Some("out.tar.gz".to_string());
    assert_eq!(
        GoMod::bundle(&gomod, "module.tar.gz".to_string(), &probe(1, true)),
        Err(Error::ModDir)
    );
}

#[test]
fn bundle_reports_what_is_amiss_first() {
    let mut gomod = manifest("https://example.com/module.tar.gz");
    gomod.bundle_path = None;
    gomod.bundle_output_path = None;
    assert_eq!(
        GoMod::bundle(&gomod, "x".to_string(), &probe(2, false)),
        Err(Error::InputFile)
    );
    assert_eq!(
        GoMod::bundle(&gomod, "x".to_string(), &probe(1, false)),
        Err(Error::InputFileBad { path: "/pkg/module.tar.gz".to_string() })
    );
}

#[test]
fn setting_drops_one_trailing_newline() {
    assert_eq!(GoMod::setting(None), "");
    assert_eq!(GoMod::setting(Some(String::new())), "");
    assert_eq!(GoMod::setting(Some("\n".to_string())), "");
    assert_eq!(GoMod::setting(Some("direct".to_string())), "direct");
    assert_eq!(
        GoMod::setting(Some("https://proxy.golang.org,direct\n".to_string())),
        "https://proxy.golang.org,direct"
    );
    assert_eq!(GoMod::setting(Some("off\n\n".to_string())), "off\n");
    assert_eq!(GoMod::setting(Some("a\nb".to_string())), "a\nb");
    assert_eq!(GoMod::setting(Some("caf\u{e9}\n".to_string())), "caf\u{e9}");
    assert_eq!(GoMod::setting(Some("off\r\n".to_string())), "off\r");
}

#[test]
fn command_unpacks_vendors_and_packs() {
    let expected = format!(
        "tar xf {input} &&
                pushd {moddir} &&
                export GOPROXY={goproxy} &&
                export GOSUMDB={gosumdb} &&
                export GOPRIVATE={goprivate} &&
                go list -mod=readonly ./... >/dev/null && go mod vendor &&
                popd &&
                tar czf {output} {moddir} && 
                rm -rf {moddir}",
        input = "module.tar.gz",
        moddir = "src/module",
        goproxy = "https://proxy.golang.org,direct",
        gosumdb = "sum.golang.org",
        goprivate = "",
        output = "bundled-module.tar.gz",
    );
    assert_eq!(
        GoMod::command(&bundle(), "https://proxy.golang.org,direct", "sum.golang.org", ""),
        expected
    );
}

#[test]
fn command_with_nothing_set() {
    let empty = Bundle { input: String::new(), mod_dir: String::new(), output: String::new() };
    assert_eq!(
        GoMod::command(&empty, "", "", ""),
        "tar xf  &&\n                pushd  &&\n                export GOPROXY= &&\n                export GOSUMDB= &&\n                export GOPRIVATE= &&\n                go list -mod=readonly ./... >/dev/null && go mod vendor &&\n                popd &&\n                tar czf   && \n                rm -rf "
    );
}

#[test]
fn vendor_hands_the_settings_on_without_their_newline() {
    let dg_args = GoMod::vendor(
        "/pkg".to_string(),
        "sdk:v1".to_string(),
        "/root/.gomodcache".to_string(),
        &bundle(),
        Some("direct\n".to_string()),
        None,
        Some("example.com/private\n".to_string()),
    );
    assert_eq!(dg_args.module_dir, "/pkg");
    assert_eq!(dg_args.sdk_image, "sdk:v1");
    assert_eq!(dg_args.go_mod_cache, "/root/.gomodcache");
    assert_eq!(dg_args.command, GoMod::command(&bundle(), "direct", "", "example.com/private"));
}

#[test]
fn join_puts_the_separator_between_the_parts() {
    let parts: Vec<String> = vec!["a".to_string(), "b".to_string(), "c".to_string()];
    assert_eq!(join(&parts, " "), "a b c");
    assert_eq!(join(&parts, ", "), "a, b, c");
    assert_eq!(join(&parts, ""), "abc");
    assert_eq!(join(&vec!["only".to_string()], " "), "only");
    assert_eq!(join(&vec![], " "), "");
    assert_eq!(join(&vec![String::new(), String::new()], "-"), "-");
}

#[test]
fn docker_go_is_started_with_four_named_arguments() {
    assert_eq!(
        docker_go_args(&args()),
        vec![
            "--module-path",
            "/pkg",
            "--sdk-image",
            "sdk:v1",
            "--go-mod-cache",
            "/root/.gomodcache",
            "--command",
            "go mod vendor",
        ]
    );
}

#[test]
fn docker_go_that_succeeds_is_fine() {
    assert_eq!(docker_go(Ok(true), &args()), Ok(()));
}

#[test]
fn docker_go_that_fails_reports_its_arguments() {
    assert_eq!(
        docker_go(Ok(false), &args()),
        Err(Error::DockerExecution {
            args: "--module-path /pkg --sdk-image sdk:v1 --go-mod-cache /root/.gomodcache --command go mod vendor"
                .to_string(),
        })
    );
}

#[test]
fn docker_go_that_cannot_be_started_reports_why() {
    assert_eq!(
        docker_go(Err("No such file or directory".to_string()), &args()),
        Err(Error::CommandStart { reason: "No such file or directory".to_string() })
    );
}

#[test]
fn go_env_gives_what_a_successful_run_printed() {
    assert_eq!(go_env(Some((true, "direct\n".to_string()))), Some("direct\n".to_string()));
    assert_eq!(go_env(Some((true, String::new()))), Some(String::new()));
    assert_eq!(go_env(Some((false, "go: unknown".to_string()))), None);
    assert_eq!(go_env(None), None);
}

#[test]
fn getenv_wants_the_variable_to_be_set() {
    assert_eq!(SDK_IMAGE_VAR, "BUILDSYS_SDK_IMAGE");
    assert_eq!(getenv("BUILDSYS_SDK_IMAGE", Some("sdk:v1".to_string())), Ok("sdk:v1".to_string()));
    assert_eq!(getenv("BUILDSYS_SDK_IMAGE", Some(String::new())), Ok(String::new()));
    assert_eq!(
        getenv("BUILDSYS_SDK_IMAGE", None),
        Err(Error::Environment { var: "BUILDSYS_SDK_IMAGE".to_string() })
    );
}
