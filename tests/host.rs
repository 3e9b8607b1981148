use maestro::RemoteHost;

#[test]
fn parse_github_ssh_uri() {
    let remote = RemoteHost::new("git@github.com:eighty4/pear.ng.git");
    assert_eq!(
        remote,
        RemoteHost::GitHub {
            owner: "eighty4".to_string(),
            name: "pear.ng".to_string(),
        }
    );
}

#[test]
fn parse_github_ssh_uri_wo_git_ext() {
    let remote = RemoteHost::new("git@github.com:eighty4/pear.ng");
    assert_eq!(
        remote,
        RemoteHost::GitHub {
            owner: "eighty4".to_string(),
            name: "pear.ng".to_string(),
        }
    );
}

#[test]
fn parse_github_https_uri() {
    let remote = RemoteHost::new("https://github.com/eighty4/pear.ng.git");
    assert_eq!(
        remote,
        RemoteHost::GitHub {
            owner: "eighty4".to_string(),
            name: "pear.ng".to_string(),
        }
    );
}

#[test]
fn parse_github_https_uri_wo_git_ext() {
    let remote = RemoteHost::new("https://github.com/eighty4/pear.ng");
    assert_eq!(
        remote,
        RemoteHost::GitHub {
            owner: "eighty4".to_string(),
            name: "pear.ng".to_string(),
        }
    );
}

#[test]
fn other_hosts_are_other() {
    assert_eq!(RemoteHost::new("git@gitlab.com:eighty4/pear.ng.git"), RemoteHost::Other);
    assert_eq!(RemoteHost::new("https://example.com/eighty4/pear.ng"), RemoteHost::Other);
    assert_eq!(RemoteHost::new(""), RemoteHost::Other);
}

#[test]
fn github_url_without_name_is_other() {
    assert_eq!(RemoteHost::new("https://github.com/eighty4"), RemoteHost::Other);
}

#[test]
fn extra_path_segments_are_ignored() {
    assert_eq!(
        RemoteHost::new("https://github.com/eighty4/pear.ng/tree/main"),
        RemoteHost::GitHub {
            owner: "eighty4".to_string(),
            name: "pear.ng".to_string(),
        }
    );
}

#[test]
fn compare_url_of_github() {
    let remote = RemoteHost::new("git@github.com:eighty4/pear.ng.git");
    assert!(remote.has_compare_url());
    assert_eq!(
        remote.compare_url("e303cea", "fe98a80"),
        "https://github.com/eighty4/pear.ng/compare/e303cea..fe98a80"
    );
    assert!(!RemoteHost::Other.has_compare_url());
}
