use gitvol::effect::{Effect, Reply};
use gitvol::error::{removal_message, Error, GitError};
use gitvol::mounting::{MountStage, Mounting};
use gitvol::plugin::{Plugin, Status};
use gitvol::removal::{remove_dir_if_exists, Removal};
use gitvol::repo::{is_supported_url, RawRepo, Repo, RepoError};
use gitvol::text::{has_prefix, is_blank, is_white_space};
use gitvol::unmounting::Unmounting;
use gitvol::volume::{component_of, directory_of, VolumeStatus};
use gitvol::volumes::{Volumes, VolumesError};
use std::io::ErrorKind;

const URL: &str = "https://example.com/repo.git";

fn repo() -> RawRepo {
    RawRepo {
        url: Some(URL.to_string()),
        ..RawRepo::default()
    }
}

fn fetching() -> RawRepo {
    RawRepo {
        refetch: Some("true".to_string()),
        ..repo()
    }
}

fn driver(names: &[&str]) -> Plugin {
    let mut plugin = Plugin::new("/srv/volumes");
    for name in names {
        plugin.create(name, Some(repo())).unwrap();
    }
    plugin
}

fn status(plugin: &Plugin, name: &str) -> VolumeStatus {
    plugin.get(name).unwrap().status.status
}

fn git_error(message: &str) -> GitError {
    GitError {
        message: message.to_string(),
    }
}

/// Mounts a volume that is not mounted yet, and all goes well.
fn mounted(plugin: &mut Plugin, name: &str, id: &str) -> String {
    let mounting = plugin.mount(name, id).unwrap();
    let mounting = plugin.resume_mount(mounting, Reply::Exists(false));
    let mounting = plugin.resume_mount(mounting, Reply::Git(Ok(())));
    mounting.into_result().unwrap().unwrap()
}

fn is_probe(effect: Option<Effect>, expected: &str) -> bool {
    matches!(effect, Some(Effect::Exists { path }) if path == expected)
}

#[test]
fn white_space_as_unicode_has_it() {
    for code in 0..0x11_0000u32 {
        if let Some(c) = char::from_u32(code) {
            assert_eq!(is_white_space(c), c.is_whitespace(), "{:x}", code);
        }
    }
}

#[test]
fn blank_and_prefix() {
    assert!(is_blank(""));
    assert!(is_blank(" \t\n\u{3000}"));
    assert!(!is_blank("  x "));
    assert!(has_prefix("https://h", "https://"));
    assert!(has_prefix("x", ""));
    assert!(!has_prefix("http:/", "http://"));
    assert!(!has_prefix("hätp://", "http://"));
}

#[test]
fn urls() {
    assert!(is_supported_url("http://host/repo"));
    assert!(is_supported_url("https://token@host/repo"));
    assert!(!is_supported_url("ftp://host/repo"));
    assert!(!is_supported_url("git@host:repo"));
    assert!(!is_supported_url("httpx://host"));
    assert!(!is_supported_url(""));
}

#[test]
fn options_are_kept_as_given() {
    let checked = Repo::check(RawRepo {
        branch: Some("main".to_string()),
        ..fetching()
    })
    .unwrap();
    assert_eq!(checked.url, URL);
    assert_eq!(checked.branch.as_deref(), Some("main"));
    assert_eq!(checked.tag, None);
    assert!(checked.refetch);
}

#[test]
fn only_true_asks_for_a_fetch() {
    for (refetch, expected) in [
        (None, false),
        (Some("true"), true),
        (Some("false"), false),
        (Some("TRUE"), false),
        (Some(""), false),
    ] {
        let checked = Repo::check(RawRepo {
            refetch: refetch.map(str::to_string),
            ..repo()
        })
        .unwrap();
        assert_eq!(checked.refetch, expected);
    }
}

#[test]
fn each_reason_to_refuse_options() {
    assert!(matches!(
        Repo::check(RawRepo::default()),
        Err(RepoError::MissingUrl)
    ));
    let unsupported = Repo::check(RawRepo {
        url: Some("ssh://host/repo".to_string()),
        ..RawRepo::default()
    });
    assert!(matches!(unsupported, Err(RepoError::UnsupportedUrl(url)) if url == "ssh://host/repo"));
    let both = Repo::check(RawRepo {
        branch: Some("b".to_string()),
        tag: Some("t".to_string()),
        ..repo()
    });
    assert!(matches!(both, Err(RepoError::BranchAndTag)));
}

#[test]
fn each_reason_to_refuse_a_volume() {
    let mut plugin = driver(&["vol"]);
    assert!(matches!(
        plugin.create(" \u{2003}", Some(repo())),
        Err(Error::Volumes(VolumesError::EmptyName))
    ));
    let taken = plugin.create("vol", None);
    assert!(
        matches!(taken, Err(Error::Volumes(VolumesError::AlreadyExists(name))) if name == "vol")
    );
    assert!(matches!(
        plugin.create("other", None),
        Err(Error::Volumes(VolumesError::Repo(RepoError::MissingUrl)))
    ));
    assert_eq!(plugin.list().unwrap().len(), 1);
    assert!(
        matches!(plugin.get("other"), Err(Error::Volumes(VolumesError::NonExists(name))) if name == "other")
    );
}

#[test]
fn store_reads_what_was_written() {
    let mut volumes = Volumes::new();
    volumes.create("a", Some(repo())).unwrap();
    volumes.create("b", Some(fetching())).unwrap();
    volumes.write("b").unwrap().attach("id");
    volumes.try_write("a").unwrap().status = VolumeStatus::Cleared;
    assert!(volumes.try_write("c").is_err());
    assert!(volumes.write("c").is_none());
    assert_eq!(volumes.read("a").unwrap().status, VolumeStatus::Cleared);
    assert_eq!(volumes.read("b").unwrap().status, VolumeStatus::Created);
    assert!(volumes.read("b").unwrap().containers.contains("id"));
    assert!(volumes.try_read("b").unwrap().repo.refetch);
    assert!(matches!(
        volumes.try_read("c"),
        Err(VolumesError::NonExists(_))
    ));
    assert_eq!(volumes.read_all().len(), 2);
    assert_eq!(volumes.remove("a").unwrap().name, "a");
    assert!(volumes.remove("a").is_none());
    assert!(volumes.read("a").is_none());
    assert_eq!(volumes.read_all().len(), 1);
}

#[test]
fn mount_goes_to_the_directory_of_the_volume() {
    let mut plugin = driver(&["vol"]);
    let mounting = plugin.mount("vol", "id").unwrap();
    assert!(is_probe(mounting.effect(), "/srv/volumes/vol"));
    let mounting = plugin.resume_mount(mounting, Reply::Exists(true));
    assert!(
        matches!(mounting.effect(), Some(Effect::RemoveDirAll { path }) if path == "/srv/volumes/vol")
    );
    let mounting = plugin.resume_mount(mounting, Reply::Removed(Ok(())));
    assert!(
        matches!(mounting.effect(), Some(Effect::Clone { path, repo })
            if path == "/srv/volumes/vol" && repo.url == URL)
    );
    assert_eq!(status(&plugin, "vol"), VolumeStatus::Created);
    let mounting = plugin.resume_mount(mounting, Reply::Git(Ok(())));
    assert!(mounting.effect().is_none());
    assert_eq!(
        mounting.into_result().unwrap().unwrap(),
        "/srv/volumes/vol"
    );
    assert_eq!(status(&plugin, "vol"), VolumeStatus::Clonned);
}

#[test]
fn nothing_is_deleted_where_nothing_is() {
    let mut plugin = driver(&["vol"]);
    let mounting = plugin.mount("vol", "id").unwrap();
    let mounting = plugin.resume_mount(mounting, Reply::Exists(false));
    assert!(matches!(mounting.effect(), Some(Effect::Clone { .. })));
}

#[test]
fn mount_of_absent_volume() {
    let mut plugin = driver(&[]);
    let mounting: Mounting = plugin.mount("vol", "id").unwrap();
    assert!(mounting.effect().is_none());
    let outcome = mounting.into_result().unwrap();
    assert!(matches!(outcome, Err(Error::Volumes(VolumesError::NonExists(name))) if name == "vol"));
}

#[test]
fn mount_that_cannot_clear_its_directory() {
    let mut plugin = driver(&["vol"]);
    let mounting = plugin.mount("vol", "id").unwrap();
    let mounting = plugin.resume_mount(mounting, Reply::Exists(true));
    let mounting =
        plugin.resume_mount(mounting, Reply::Removed(Err(ErrorKind::PermissionDenied)));
    match mounting.into_result().unwrap() {
        Err(Error::RemoveDir {
            path,
            operation,
            kind,
        }) => {
            assert_eq!(path, "/srv/volumes/vol");
            assert_eq!(operation, "exists repository dir");
            assert_eq!(kind, ErrorKind::PermissionDenied);
        }
        other => panic!("{:?}", other),
    }
    assert_eq!(status(&plugin, "vol"), VolumeStatus::Created);
    assert_eq!(plugin.path("vol").unwrap(), None);
    assert!(is_probe(
        plugin.mount("vol", "id").unwrap().effect(),
        "/srv/volumes/vol"
    ));
}

#[test]
fn failed_clone_puts_no_container_on_the_volume_and_the_next_mount_clones() {
    let mut plugin = driver(&["vol"]);
    let mounting = plugin.mount("vol", "id-1").unwrap();
    let mounting = plugin.resume_mount(mounting, Reply::Exists(false));
    let mounting = plugin.resume_mount(mounting, Reply::Git(Err(git_error("no such host"))));
    let outcome = mounting.into_result().unwrap();
    assert!(matches!(outcome, Err(Error::Git(error)) if error.message == "no such host"));
    assert_eq!(status(&plugin, "vol"), VolumeStatus::Created);
    assert_eq!(plugin.path("vol").unwrap(), None);
    assert_eq!(plugin.container_count("vol"), 0);

    let mounting = plugin.mount("vol", "id-2").unwrap();
    assert!(is_probe(mounting.effect(), "/srv/volumes/vol"));
    let mounting = plugin.resume_mount(mounting, Reply::Exists(true));
    let mounting = plugin.resume_mount(mounting, Reply::Removed(Ok(())));
    assert!(matches!(mounting.effect(), Some(Effect::Clone { .. })));
    assert_eq!(plugin.path("vol").unwrap(), None);
    let mounting = plugin.resume_mount(mounting, Reply::Git(Ok(())));
    assert_eq!(
        mounting.into_result().unwrap().unwrap(),
        "/srv/volumes/vol"
    );
    let info = plugin.get("vol").unwrap();
    assert_eq!(info.mountpoint.as_deref(), Some("/srv/volumes/vol"));
    assert_eq!(info.status.status, VolumeStatus::Clonned);
    assert_eq!(plugin.container_count("vol"), 1);
}

/// A first mount that fails, and may leave something in the directory.
fn fail_first_mount(plugin: &mut Plugin, name: &str, clearing: bool) {
    let mounting = plugin.mount(name, "id").unwrap();
    let mounting = plugin.resume_mount(mounting, Reply::Exists(clearing));
    let reply = if clearing {
        Reply::Removed(Err(ErrorKind::PermissionDenied))
    } else {
        Reply::Git(Err(git_error("connection lost")))
    };
    let mounting = plugin.resume_mount(mounting, reply);
    assert!(mounting.into_result().unwrap().is_err());
    assert_eq!(plugin.path(name).unwrap(), None);
    assert!(!plugin.is_busy(name));
}

#[test]
fn leftovers_go_with_the_volume() {
    for clearing in [false, true] {
        let mut plugin = driver(&["vol"]);
        fail_first_mount(&mut plugin, "vol", clearing);
        let removal = plugin.remove("vol").unwrap();
        assert!(is_probe(removal.effect(), "/srv/volumes/vol"));
        let removal = removal.resume(Reply::Exists(true));
        assert!(
            matches!(removal.effect(), Some(Effect::RemoveDirAll { path }) if path == "/srv/volumes/vol")
        );
        let removal = removal.resume(Reply::Removed(Ok(())));
        assert!(removal.into_result().unwrap().is_ok());
        assert!(plugin.get("vol").is_err());
    }
}

#[test]
fn leftovers_go_with_an_unmount() {
    for clearing in [false, true] {
        let mut plugin = driver(&["vol"]);
        fail_first_mount(&mut plugin, "vol", clearing);
        let unmounting = plugin.unmount("vol", "id").unwrap();
        assert!(is_probe(unmounting.effect(), "/srv/volumes/vol"));
        let unmounting = plugin.resume_unmount(unmounting, Reply::Exists(true));
        let unmounting =
            plugin.resume_unmount(unmounting, Reply::Removed(Err(ErrorKind::Other)));
        assert!(unmounting.into_result().unwrap().is_err());

        // The next one tries again, and the one after that has nothing to do.
        let unmounting = plugin.unmount("vol", "id").unwrap();
        let unmounting = plugin.resume_unmount(unmounting, Reply::Exists(true));
        let unmounting = plugin.resume_unmount(unmounting, Reply::Removed(Ok(())));
        assert!(unmounting.into_result().unwrap().is_ok());
        assert!(plugin.unmount("vol", "id").unwrap().effect().is_none());
        assert!(plugin.remove("vol").unwrap().effect().is_none());
    }
}

#[test]
fn no_second_mount_during_the_first() {
    let mut plugin = driver(&["vol", "other"]);
    let first = plugin.mount("vol", "id-1").unwrap();
    assert!(plugin.is_busy("vol"));
    assert!(!plugin.is_busy("other"));
    assert!(plugin.mount("vol", "id-2").is_none());
    assert!(plugin.mount("other", "id-2").is_some());
    let first = plugin.resume_mount(first, Reply::Exists(true));
    assert!(plugin.mount("vol", "id-2").is_none());
    let first = plugin.resume_mount(first, Reply::Removed(Ok(())));
    assert!(plugin.mount("vol", "id-2").is_none());
    let first = plugin.resume_mount(first, Reply::Git(Ok(())));
    assert!(first.into_result().unwrap().is_ok());
    assert!(!plugin.is_busy("vol"));
    let second = plugin.mount("vol", "id-2").unwrap();
    assert!(second.effect().is_none());
    assert_eq!(second.into_result().unwrap().unwrap(), "/srv/volumes/vol");
    assert_eq!(plugin.container_count("vol"), 2);
}

#[test]
fn no_mount_during_the_last_unmount() {
    let mut plugin = driver(&["vol"]);
    mounted(&mut plugin, "vol", "id-1");
    let unmounting = plugin.unmount("vol", "id-1").unwrap();
    assert!(plugin.mount("vol", "id-2").is_none());
    assert!(plugin.unmount("vol", "id-2").is_none());
    let unmounting = plugin.resume_unmount(unmounting, Reply::Exists(true));
    assert!(plugin.mount("vol", "id-2").is_none());
    assert!(plugin.remove("vol").is_none());
    let unmounting = plugin.resume_unmount(unmounting, Reply::Removed(Ok(())));
    assert!(unmounting.into_result().unwrap().is_ok());
    assert_eq!(mounted(&mut plugin, "vol", "id-2"), "/srv/volumes/vol");
    assert_eq!(status(&plugin, "vol"), VolumeStatus::Clonned);
}

#[test]
fn no_removal_during_a_mount() {
    let mut plugin = driver(&["vol"]);
    let mounting = plugin.mount("vol", "id").unwrap();
    let mounting = plugin.resume_mount(mounting, Reply::Exists(false));
    assert!(plugin.remove("vol").is_none());
    assert!(plugin.unmount("vol", "id").is_none());
    assert!(matches!(
        plugin.create("vol", Some(repo())),
        Err(Error::Volumes(VolumesError::AlreadyExists(_)))
    ));
    let mounting = plugin.resume_mount(mounting, Reply::Git(Ok(())));
    assert!(mounting.into_result().unwrap().is_ok());
    assert!(is_probe(
        plugin.remove("vol").unwrap().effect(),
        "/srv/volumes/vol"
    ));
}

#[test]
fn no_second_fetch_during_the_first() {
    let mut plugin = driver(&[]);
    plugin.create("vol", Some(fetching())).unwrap();
    mounted(&mut plugin, "vol", "id-1");
    let mounting = plugin.mount("vol", "id-2").unwrap();
    assert!(plugin.mount("vol", "id-3").is_none());
    assert!(plugin.unmount("vol", "id-1").is_none());
    assert_eq!(plugin.container_count("vol"), 1);
    plugin.abandon_mount(mounting);
    assert_eq!(plugin.container_count("vol"), 1);
    assert!(plugin.mount("vol", "id-3").is_some());
}

#[test]
fn mount_that_is_given_up() {
    let mut plugin = driver(&["vol"]);
    let mounting = plugin.mount("vol", "id").unwrap();
    let mounting = plugin.resume_mount(mounting, Reply::Exists(false));
    plugin.abandon_mount(mounting);
    assert!(!plugin.is_busy("vol"));
    assert_eq!(plugin.path("vol").unwrap(), None);
    assert_eq!(status(&plugin, "vol"), VolumeStatus::Created);
    assert_eq!(mounted(&mut plugin, "vol", "id"), "/srv/volumes/vol");

    let mut plugin = driver(&["vol"]);
    let mounting = plugin.mount("vol", "id").unwrap();
    plugin.abandon_mount(mounting);
    let removal = plugin.remove("vol").unwrap();
    assert!(is_probe(removal.effect(), "/srv/volumes/vol"));
}

#[test]
fn unmount_that_is_given_up() {
    let mut plugin = driver(&["vol"]);
    mounted(&mut plugin, "vol", "id");
    let unmounting = plugin.unmount("vol", "id").unwrap();
    plugin.abandon_unmount(unmounting);
    assert!(!plugin.is_busy("vol"));
    assert_eq!(plugin.container_count("vol"), 0);
    assert_eq!(
        plugin.path("vol").unwrap().as_deref(),
        Some("/srv/volumes/vol")
    );
    assert!(plugin.unmount("vol", "id").unwrap().effect().is_some());
}

#[test]
fn operation_that_does_not_hold_its_volume() {
    let mut plugin = driver(&["vol"]);
    let stage = MountStage::Cloning {
        path: "/srv/volumes/vol".to_string(),
        repo: Repo::check(repo()).unwrap(),
    };
    let mounting = Mounting {
        name: "vol".to_string(),
        id: "id".to_string(),
        stage,
    };
    let mounting = plugin.resume_mount(mounting, Reply::Git(Ok(())));
    assert!(matches!(
        mounting.into_result().unwrap(),
        Err(Error::Volumes(VolumesError::NonExists(_)))
    ));
    assert_eq!(plugin.path("vol").unwrap(), None);

    mounted(&mut plugin, "vol", "id");
    let unmounting = Unmounting {
        name: "vol".to_string(),
        removal: remove_dir_if_exists(Some("/srv/volumes/vol".to_string())),
    };
    let unmounting = plugin.resume_unmount(unmounting, Reply::Exists(false));
    assert!(unmounting.into_result().unwrap().is_ok());
    assert!(plugin.path("vol").unwrap().is_some());
}

#[test]
fn directories_are_entries_of_the_base_path() {
    for (name, entry) in [
        ("vol", "vol"),
        ("my.vol-1_x", "my.vol-1_x"),
        ("a/", "a%2F"),
        ("/etc", "%2Fetc"),
        (".", "%2E"),
        ("..", "%2E."),
        (".%2F", "%2E%252F"),
        ("a%2F", "a%252F"),
        ("%2E", "%252E"),
        ("x\0y", "x%00y"),
        ("тест", "тест"),
    ] {
        assert_eq!(component_of(name), entry);
        let mut plugin = driver(&[name]);
        assert_eq!(
            mounted(&mut plugin, name, "id"),
            format!("/srv/volumes/{}", entry)
        );
    }
    assert_eq!(directory_of("/b", "v"), "/b/v");
    assert_eq!(directory_of("/b/", "v"), "/b/v");
    assert_eq!(directory_of("/", "v"), "/v");
    assert_eq!(directory_of("", "v"), "v");
    assert_eq!(directory_of("", "/etc"), "%2Fetc");
}

#[test]
fn containers_are_counted() {
    let mut plugin = driver(&["vol"]);
    assert_eq!(plugin.container_count("absent"), 0);
    mounted(&mut plugin, "vol", "id-1");
    plugin.mount("vol", "id-2").unwrap();
    plugin.mount("vol", "id-2").unwrap();
    assert_eq!(plugin.container_count("vol"), 2);
    plugin.unmount("vol", "id-1").unwrap();
    assert_eq!(plugin.container_count("vol"), 1);
}

#[test]
fn errors_in_words() {
    let removal = remove_dir_if_exists(Some("/base/vol".to_string()))
        .resume(Reply::Exists(true))
        .resume(Reply::Removed(Err(ErrorKind::PermissionDenied)));
    assert_eq!(
        removal.into_result().unwrap().unwrap_err().message(),
        "Failed deletion of directory /base/vol for remove dir if exists. PermissionDenied"
    );
    let busy = Error::RemoveDir {
        path: "/p".to_string(),
        operation: "exists repository dir".to_string(),
        kind: ErrorKind::NotFound,
    };
    assert_eq!(
        busy.message(),
        "Failed deletion of directory /p for exists repository dir. NotFound"
    );
    assert_eq!(
        removal_message("/p", "x", "Y"),
        "Failed deletion of directory /p for x. Y"
    );
    assert_eq!(Error::from(git_error("no such host")).message(), "no such host");
    for (error, text) in [
        (
            VolumesError::NonExists("v".to_string()),
            "Volume named v not found",
        ),
        (
            VolumesError::AlreadyExists("v".to_string()),
            "Volume named v already exists",
        ),
        (VolumesError::EmptyName, "The volume name is empty"),
        (
            VolumesError::Repo(RepoError::MissingUrl),
            "The url is required",
        ),
        (
            VolumesError::Repo(RepoError::UnsupportedUrl("x".to_string())),
            "The url x is not supported",
        ),
        (
            VolumesError::Repo(RepoError::BranchAndTag),
            "The branch and the tag are mutually exclusive",
        ),
    ] {
        assert_eq!(Error::from(error).message(), text);
    }
}

#[test]
fn fetch_on_each_mount_of_a_clone() {
    let mut plugin = driver(&[]);
    plugin.create("vol", Some(fetching())).unwrap();
    mounted(&mut plugin, "vol", "id-1");
    for id in ["id-2", "id-3"] {
        let mounting = plugin.mount("vol", id).unwrap();
        assert!(
            matches!(mounting.effect(), Some(Effect::Refetch { path }) if path == "/srv/volumes/vol")
        );
        let mounting = plugin.resume_mount(mounting, Reply::Git(Ok(())));
        assert_eq!(
            mounting.into_result().unwrap().unwrap(),
            "/srv/volumes/vol"
        );
    }
    for id in ["id-1", "id-2"] {
        assert!(plugin.unmount("vol", id).unwrap().effect().is_none());
    }
    assert!(plugin.unmount("vol", "id-3").unwrap().effect().is_some());
}

#[test]
fn failed_fetch_puts_no_container_on_the_volume() {
    let mut plugin = driver(&[]);
    plugin.create("vol", Some(fetching())).unwrap();
    mounted(&mut plugin, "vol", "id-1");
    let mounting = plugin.mount("vol", "id-2").unwrap();
    let mounting = plugin.resume_mount(mounting, Reply::Git(Err(git_error("gone"))));
    assert!(matches!(
        mounting.into_result().unwrap(),
        Err(Error::Git(_))
    ));
    assert_eq!(status(&plugin, "vol"), VolumeStatus::Clonned);
    assert!(plugin.unmount("vol", "id-1").unwrap().effect().is_some());
}

#[test]
fn replies_to_other_effects_change_nothing() {
    let mut plugin = driver(&["vol"]);
    let mounting = plugin.mount("vol", "id").unwrap();
    let mounting = plugin.resume_mount(mounting, Reply::Git(Ok(())));
    let mounting = plugin.resume_mount(mounting, Reply::Removed(Err(ErrorKind::Other)));
    assert!(is_probe(mounting.effect(), "/srv/volumes/vol"));
    let mounting = plugin.resume_mount(mounting, Reply::Exists(false));
    let mounting = plugin.resume_mount(mounting, Reply::Git(Ok(())));
    let mounting = plugin.resume_mount(mounting, Reply::Git(Err(git_error("late"))));
    assert!(mounting.into_result().unwrap().is_ok());

    let unmounting = plugin.unmount("vol", "id").unwrap();
    let unmounting = plugin.resume_unmount(unmounting, Reply::Git(Ok(())));
    assert!(is_probe(unmounting.effect(), "/srv/volumes/vol"));
    assert!(plugin.path("vol").unwrap().is_some());
}

#[test]
fn unmount_that_cannot_delete_the_directory() {
    let mut plugin = driver(&["vol"]);
    mounted(&mut plugin, "vol", "id");
    let unmounting: Unmounting = plugin.unmount("vol", "id").unwrap();
    let unmounting = plugin.resume_unmount(unmounting, Reply::Exists(true));
    let unmounting = plugin.resume_unmount(
        unmounting,
        Reply::Removed(Err(ErrorKind::PermissionDenied)),
    );
    match unmounting.into_result().unwrap() {
        Err(Error::RemoveDir {
            path,
            operation,
            kind,
        }) => {
            assert_eq!(path, "/srv/volumes/vol");
            assert_eq!(operation, "remove dir if exists");
            assert_eq!(kind, ErrorKind::PermissionDenied);
        }
        other => panic!("{:?}", other),
    }
    assert_eq!(status(&plugin, "vol"), VolumeStatus::Cleared);
    assert_eq!(
        plugin.path("vol").unwrap().as_deref(),
        Some("/srv/volumes/vol")
    );

    // The next one tries again.
    let unmounting = plugin.unmount("vol", "id").unwrap();
    let unmounting = plugin.resume_unmount(unmounting, Reply::Exists(true));
    let unmounting = plugin.resume_unmount(unmounting, Reply::Removed(Ok(())));
    assert!(unmounting.into_result().unwrap().is_ok());
    assert_eq!(plugin.path("vol").unwrap(), None);
}

#[test]
fn unmount_of_a_directory_that_is_gone() {
    let mut plugin = driver(&["vol"]);
    mounted(&mut plugin, "vol", "id");
    let unmounting = plugin.unmount("vol", "id").unwrap();
    let unmounting = plugin.resume_unmount(unmounting, Reply::Exists(false));
    assert!(unmounting.into_result().unwrap().is_ok());
    assert_eq!(plugin.path("vol").unwrap(), None);
    assert_eq!(status(&plugin, "vol"), VolumeStatus::Cleared);
}

#[test]
fn unmount_of_a_volume_never_mounted() {
    let mut plugin = driver(&["vol"]);
    let unmounting = plugin.unmount("vol", "id").unwrap();
    assert!(unmounting.effect().is_none());
    assert!(unmounting.into_result().unwrap().is_ok());
    assert_eq!(status(&plugin, "vol"), VolumeStatus::Cleared);
    assert_eq!(plugin.path("vol").unwrap(), None);
}

#[test]
fn mount_after_unmount_clones_again() {
    let mut plugin = driver(&["vol"]);
    mounted(&mut plugin, "vol", "id");
    let unmounting = plugin.unmount("vol", "id").unwrap();
    plugin.resume_unmount(unmounting, Reply::Exists(false));
    assert_eq!(mounted(&mut plugin, "vol", "id"), "/srv/volumes/vol");
    assert_eq!(status(&plugin, "vol"), VolumeStatus::Clonned);
}

#[test]
fn removed_even_where_the_directory_stays() {
    let mut plugin = driver(&["vol"]);
    mounted(&mut plugin, "vol", "id");
    let removal: Removal = plugin.remove("vol").unwrap();
    assert!(plugin.get("vol").is_err());
    assert!(is_probe(removal.effect(), "/srv/volumes/vol"));
    let removal = removal.resume(Reply::Exists(true));
    assert!(
        matches!(removal.effect(), Some(Effect::RemoveDirAll { path }) if path == "/srv/volumes/vol")
    );
    let removal = removal.resume(Reply::Removed(Err(ErrorKind::Other)));
    assert!(matches!(
        removal.into_result().unwrap(),
        Err(Error::RemoveDir {
            kind: ErrorKind::Other,
            ..
        })
    ));
    assert!(plugin.create("vol", Some(repo())).is_ok());
}

#[test]
fn removal_of_a_directory() {
    assert!(remove_dir_if_exists(None).into_result().unwrap().is_ok());
    let removal = remove_dir_if_exists(Some("/x".to_string()));
    assert!(is_probe(removal.effect(), "/x"));
    assert!(removal
        .resume(Reply::Exists(false))
        .into_result()
        .unwrap()
        .is_ok());
    let removal = remove_dir_if_exists(Some("/x".to_string())).resume(Reply::Exists(true));
    assert!(removal
        .resume(Reply::Removed(Ok(())))
        .into_result()
        .unwrap()
        .is_ok());
    assert!(remove_dir_if_exists(Some("/x".to_string()))
        .into_result()
        .is_none());
}

#[test]
fn volumes_do_not_touch_each_other() {
    let mut plugin = driver(&["a", "b"]);
    let first = mounted(&mut plugin, "a", "id");
    let second = mounted(&mut plugin, "b", "id");
    assert_ne!(first, second);
    let unmounting = plugin.unmount("a", "id").unwrap();
    plugin.resume_unmount(unmounting, Reply::Exists(false));
    plugin.remove("a").unwrap();
    assert_eq!(plugin.path("b").unwrap(), Some(second));
    assert_eq!(status(&plugin, "b"), VolumeStatus::Clonned);
    assert!(plugin.unmount("b", "stranger").unwrap().effect().is_none());
    assert!(plugin.path("b").unwrap().is_some());
}

#[test]
fn conversions() {
    assert_eq!(
        Status::from(VolumeStatus::Cleared),
        Status {
            status: VolumeStatus::Cleared
        }
    );
    assert!(matches!(
        Error::from(VolumesError::EmptyName),
        Error::Volumes(VolumesError::EmptyName)
    ));
    assert!(matches!(Error::from(git_error("x")), Error::Git(error) if error.message == "x"));
}
