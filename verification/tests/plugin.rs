use gitvol::driver::{ItemVolume, VolumeInfo};
use gitvol::effect::{Effect, Reply};
use gitvol::error::{Error, GitError};
use gitvol::plugin::{Plugin, Status};
use gitvol::repo::RawRepo;
use gitvol::volume::VolumeStatus;
use gitvol::volumes::VolumesError;
use std::collections::HashMap;

const VOLUME_NAME: &str = "test_volume";
const BASE_PATH: &str = "/tmp/temp-gitvol";
const REPO_URL: &str = "https://example.com/test-repo.git";

/// A directory that a repository was cloned into.
#[derive(Clone)]
struct Checkout {
    url: String,
    branch: Option<String>,
    tag: Option<String>,
    is_git: bool,
    content: String,
}

/// A file system and the repositories that can be reached from it.
struct Host {
    dirs: HashMap<String, Checkout>,
    remotes: HashMap<String, String>,
    clones: usize,
    fetches: usize,
}

fn git_error(message: &str) -> GitError {
    GitError {
        message: message.to_string(),
    }
}

impl Host {
    fn perform(&mut self, effect: Effect) -> Reply {
        match effect {
            Effect::Exists { path } => Reply::Exists(self.dirs.contains_key(&path)),
            Effect::RemoveDirAll { path } => Reply::Removed(match self.dirs.remove(&path) {
                Some(_) => Ok(()),
                None => Err(std::io::ErrorKind::NotFound),
            }),
            Effect::Clone { path, repo } => Reply::Git(match self.remotes.get(&repo.url) {
                Some(content) => {
                    self.clones += 1;
                    let checkout = Checkout {
                        url: repo.url.clone(),
                        branch: repo.branch.clone(),
                        tag: repo.tag.clone(),
                        is_git: repo.refetch,
                        content: content.clone(),
                    };
                    match self.dirs.insert(path, checkout) {
                        None => Ok(()),
                        Some(_) => Err(git_error("the directory is not empty")),
                    }
                }
                None => Err(git_error("repository not found")),
            }),
            Effect::Refetch { path } => Reply::Git(match self.dirs.get_mut(&path) {
                Some(checkout) => {
                    self.fetches += 1;
                    checkout.content = self.remotes[&checkout.url].clone();
                    Ok(())
                }
                None => Err(git_error("not a repository")),
            }),
        }
    }
}

struct TestPlugin {
    plugin: Plugin,
    host: Host,
}

fn stub_repo() -> RawRepo {
    RawRepo {
        url: Some(REPO_URL.to_string()),
        ..RawRepo::default()
    }
}

impl TestPlugin {
    fn stub() -> Self {
        let mut remotes = HashMap::new();
        remotes.insert(REPO_URL.to_string(), "first value".to_string());
        TestPlugin {
            plugin: Plugin::new(BASE_PATH),
            host: Host {
                dirs: HashMap::new(),
                remotes,
                clones: 0,
                fetches: 0,
            },
        }
    }

    fn with_volume(mut self, name: &str, repo: RawRepo) -> Self {
        self.plugin.create(name, Some(repo)).unwrap();
        self
    }

    fn with_stub_volume(self) -> Self {
        self.with_volume(VOLUME_NAME, stub_repo())
    }

    fn mount(&mut self, name: &str, id: &str) -> Result<String, Error> {
        let mut mounting = self.plugin.mount(name, id).unwrap();
        while let Some(effect) = mounting.effect() {
            let reply = self.host.perform(effect);
            mounting = self.plugin.resume_mount(mounting, reply);
        }
        mounting.into_result().unwrap()
    }

    fn unmount(&mut self, name: &str, id: &str) -> Result<(), Error> {
        let mut unmounting = self.plugin.unmount(name, id).unwrap();
        while let Some(effect) = unmounting.effect() {
            let reply = self.host.perform(effect);
            unmounting = self.plugin.resume_unmount(unmounting, reply);
        }
        unmounting.into_result().unwrap()
    }

    fn remove(&mut self, name: &str) -> Result<(), Error> {
        let mut removal = self.plugin.remove(name).unwrap();
        while let Some(effect) = removal.effect() {
            let reply = self.host.perform(effect);
            removal = removal.resume(reply);
        }
        removal.into_result().unwrap()
    }

    fn is_there(&self, path: &str) -> bool {
        self.host.dirs.contains_key(path)
    }

    fn test_is_empty_list(&self) -> &Self {
        let list = self.plugin.list().unwrap();
        assert_eq!(list.len(), 0);
        self
    }

    fn test_in_list(&self, input_list: Vec<ItemVolume>) -> &Self {
        let list = self.plugin.list().unwrap();
        assert_eq!(list.len(), input_list.len());
        for item in input_list {
            let list_item = list.iter().find(|i| i.name == item.name);
            assert!(
                list_item.is_some(),
                "The volume named {} was not found in the list.",
                item.name
            );
            let mountpoint = list_item.and_then(|i| i.mountpoint.clone());
            assert_eq!(item.mountpoint, mountpoint);
        }
        self
    }

    fn test_in_list_by_names(&self, input_list: Vec<&str>) -> &Self {
        self.test_in_list(
            input_list
                .into_iter()
                .map(|name| ItemVolume {
                    name: name.to_string(),
                    mountpoint: None,
                })
                .collect(),
        )
    }

    fn test_stub_path_is(&self, path: Option<String>) -> &Self {
        assert_eq!(self.plugin.path(VOLUME_NAME).unwrap(), path);
        self
    }

    fn test_get_stub_volume(&self, info: VolumeInfo<Status>) -> &Self {
        assert_eq!(self.plugin.get(VOLUME_NAME).unwrap(), info);
        self
    }
}

#[test]
fn list_empty_initial() {
    TestPlugin::stub().test_is_empty_list();
}

#[test]
fn path_nonexistent_returns_none() {
    TestPlugin::stub().test_stub_path_is(None);
}

#[test]
fn get_nonexistent_returns_error() {
    let plugin = TestPlugin::stub();

    let result = plugin.plugin.get(VOLUME_NAME);
    assert!(
        result.is_err(),
        "Retrieving a non-existent volume should result in an error."
    );

    let error = result.unwrap_err();
    assert!(matches!(error, Error::Volumes(VolumesError::NonExists(_))));
}

#[test]
fn create_success_new_volume() {
    let cases = vec![
        stub_repo(),
        RawRepo {
            branch: Some("some_branch".into()),
            ..stub_repo()
        },
        RawRepo {
            tag: Some("som-tag".into()),
            ..stub_repo()
        },
        RawRepo {
            refetch: Some("true".into()),
            ..stub_repo()
        },
    ];
    for raw_repo in cases {
        TestPlugin::stub()
            .with_volume(VOLUME_NAME, raw_repo)
            .test_in_list_by_names(vec![VOLUME_NAME])
            .test_stub_path_is(None)
            .test_get_stub_volume(VolumeInfo {
                status: VolumeStatus::Created.into(),
                mountpoint: None,
            });
    }
}

#[test]
fn create_duplicate_name_error() {
    let mut plugin = TestPlugin::stub().with_stub_volume();

    let second_creating = plugin.plugin.create(VOLUME_NAME, Some(stub_repo()));
    assert!(
        second_creating.is_err(),
        "Recreating the volume (with the same name) should result in an error."
    );

    let error = second_creating.unwrap_err();
    assert!(matches!(
        error,
        Error::Volumes(VolumesError::AlreadyExists(_))
    ));

    plugin.test_in_list_by_names(vec![VOLUME_NAME]);
}

#[test]
fn create_invalid_params_error() {
    let cases = vec![
        ("", Some(stub_repo())),
        ("     ", Some(stub_repo())),
        (VOLUME_NAME, None),
        (VOLUME_NAME, Some(RawRepo::default())),
        (
            VOLUME_NAME,
            Some(RawRepo {
                branch: Some("some_branch".into()),
                tag: Some("some_tag".into()),
                ..stub_repo()
            }),
        ),
        (
            VOLUME_NAME,
            Some(RawRepo {
                url: Some("ftp://host/path-to-git-repo".into()),
                ..RawRepo::default()
            }),
        ),
    ];
    for (volume_name, raw_repo) in cases {
        let mut plugin = TestPlugin::stub();

        let result = plugin.plugin.create(volume_name, raw_repo.clone());
        assert!(
            result.is_err(),
            "Creating a volume with incorrect parameters should result in an error. name={:?}; options={:?}",
            volume_name,
            raw_repo
        );

        let error = result.unwrap_err();
        assert!(matches!(error, Error::Volumes(_)));
        plugin.test_is_empty_list();
    }
}

#[test]
fn list_multiple_volumes() {
    TestPlugin::stub()
        .with_stub_volume()
        .with_volume("other_volume", stub_repo())
        .test_in_list_by_names(vec![VOLUME_NAME, "other_volume"]);
}

#[test]
fn path_after_mount_returns_some() {
    let mut plugin = TestPlugin::stub().with_stub_volume();

    let mountpoint = plugin.mount(VOLUME_NAME, "id-123").unwrap();

    plugin.test_stub_path_is(Some(mountpoint));
}

#[test]
fn get_created_unmounted_status() {
    let mut plugin = TestPlugin::stub().with_stub_volume();

    let created = plugin.plugin.get(VOLUME_NAME).unwrap();
    assert_eq!(
        created.status,
        Status {
            status: VolumeStatus::Created
        }
    );

    plugin.mount(VOLUME_NAME, "id-123").unwrap();
    plugin.unmount(VOLUME_NAME, "id-123").unwrap();

    let cleared = plugin.plugin.get(VOLUME_NAME).unwrap();
    assert_eq!(
        cleared.status,
        Status {
            status: VolumeStatus::Cleared
        }
    );
}

#[test]
fn get_after_mount_status_clonned() {
    let mut plugin = TestPlugin::stub().with_stub_volume();

    let mountpoint = plugin.mount(VOLUME_NAME, "id-123").unwrap();

    assert!(plugin.is_there(&mountpoint));
    plugin.test_get_stub_volume(VolumeInfo {
        mountpoint: Some(mountpoint),
        status: Status {
            status: VolumeStatus::Clonned,
        },
    });
}

#[test]
fn remove_nonexistent_by_empty_ok() {
    let mut plugin = TestPlugin::stub();
    let result = plugin.remove("other_volume");
    assert!(result.is_ok());

    plugin.test_is_empty_list();
}

#[test]
fn remove_nonexistent_with_other_volumes_ok() {
    let mut plugin = TestPlugin::stub().with_stub_volume();

    let result = plugin.remove("other_volume");
    assert!(result.is_ok());

    plugin.test_in_list_by_names(vec![VOLUME_NAME]);
}

#[test]
fn remove_existing_unmounted_ok() {
    let mut plugin = TestPlugin::stub().with_stub_volume();

    let result = plugin.remove(VOLUME_NAME);
    assert!(result.is_ok());

    plugin.test_is_empty_list().test_stub_path_is(None);
}

#[test]
fn remove_existing_mounted_ok() {
    let mut plugin = TestPlugin::stub().with_stub_volume();

    let mountpoint = plugin.mount(VOLUME_NAME, "id").unwrap();
    let result = plugin.remove(VOLUME_NAME);
    assert!(result.is_ok());

    plugin.test_is_empty_list();
    assert!(!plugin.is_there(&mountpoint));
}

#[test]
fn mount_first_time_clones_repo() {
    let mut plugin = TestPlugin::stub().with_stub_volume();

    let mountpoint = plugin.mount(VOLUME_NAME, "id").unwrap();

    let checkout = &plugin.host.dirs[&mountpoint];
    assert!(!checkout.is_git);
    assert_eq!(checkout.url, REPO_URL);
    assert_eq!(checkout.branch, None);
    assert_eq!(checkout.tag, None);
    assert_eq!(plugin.host.clones, 1);
}

#[test]
fn mount_when_already_mounted_no_clone() {
    let mut plugin = TestPlugin::stub().with_stub_volume();

    let first_mountpoint = plugin.mount(VOLUME_NAME, "id-1").unwrap();
    let second_mountpoint = plugin.mount(VOLUME_NAME, "id-2").unwrap();

    assert_eq!(first_mountpoint, second_mountpoint);
    assert_eq!(plugin.host.clones, 1);
    assert_eq!(plugin.host.fetches, 0);
}

#[test]
fn mount_with_branch() {
    let mut plugin = TestPlugin::stub().with_volume(
        VOLUME_NAME,
        RawRepo {
            branch: Some("develop".into()),
            ..stub_repo()
        },
    );

    let mountpoint = plugin.mount(VOLUME_NAME, "id").unwrap();
    let checkout = &plugin.host.dirs[&mountpoint];
    assert_eq!(checkout.branch.as_deref(), Some("develop"));
    assert_eq!(checkout.tag, None);
}

#[test]
fn mount_with_tag() {
    let mut plugin = TestPlugin::stub().with_volume(
        VOLUME_NAME,
        RawRepo {
            tag: Some("v1".into()),
            ..stub_repo()
        },
    );

    let mountpoint = plugin.mount(VOLUME_NAME, "id").unwrap();
    let checkout = &plugin.host.dirs[&mountpoint];
    assert_eq!(checkout.tag.as_deref(), Some("v1"));
    assert_eq!(checkout.branch, None);
}

#[test]
fn mount_with_refetch() {
    let branch_name = "some_branch";
    let mut plugin = TestPlugin::stub().with_volume(
        VOLUME_NAME,
        RawRepo {
            branch: Some(branch_name.into()),
            refetch: Some("true".into()),
            ..stub_repo()
        },
    );

    let mountpoint = plugin.mount(VOLUME_NAME, "id-1").unwrap();
    let checkout = plugin.host.dirs[&mountpoint].clone();
    assert!(checkout.is_git);
    assert_eq!(checkout.branch.as_deref(), Some(branch_name));
    assert_eq!(checkout.content, "first value");

    plugin
        .host
        .remotes
        .insert(REPO_URL.to_string(), "changed value".to_string());

    plugin.mount(VOLUME_NAME, "id-2").unwrap();
    assert_eq!(plugin.host.dirs[&mountpoint].content, "changed value");
    assert_eq!(plugin.host.clones, 1);
    assert_eq!(plugin.host.fetches, 1);
}

#[test]
fn mount_clone_failure_on_bad_url() {
    let mut plugin = TestPlugin::stub().with_volume(
        VOLUME_NAME,
        RawRepo {
            url: Some("http://host/path-to-git-repo".into()),
            ..RawRepo::default()
        },
    );

    let result = plugin.mount(VOLUME_NAME, "id");
    assert!(
        result.is_err(),
        " Mounting a non-existent repository should result in an error."
    );

    let again = plugin.mount(VOLUME_NAME, "id");
    assert!(again.is_err());
}

#[test]
fn unmount_nonexistent_ok() {
    let mut plugin = TestPlugin::stub();

    let result = plugin.unmount("name", "id");
    assert!(result.is_ok());
}

#[test]
fn unmount_with_multiple_containers_keeps_dir() {
    let mut plugin = TestPlugin::stub().with_stub_volume();

    let mountpoint = plugin.mount(VOLUME_NAME, "id-1").unwrap();
    plugin.mount(VOLUME_NAME, "id-2").unwrap();

    plugin.unmount(VOLUME_NAME, "id-1").unwrap();
    plugin
        .test_in_list(vec![ItemVolume {
            name: VOLUME_NAME.into(),
            mountpoint: Some(mountpoint.clone()),
        }])
        .test_get_stub_volume(VolumeInfo {
            mountpoint: Some(mountpoint.clone()),
            status: VolumeStatus::Clonned.into(),
        });
    assert!(plugin.is_there(&mountpoint));
}

#[test]
fn unmount_last_container_removes_dir_and_clears() {
    let mut plugin = TestPlugin::stub().with_stub_volume();

    let mountpoint = plugin.mount(VOLUME_NAME, "id-1").unwrap();
    plugin.mount(VOLUME_NAME, "id-2").unwrap();

    plugin.unmount(VOLUME_NAME, "id-1").unwrap();
    plugin.unmount(VOLUME_NAME, "id-2").unwrap();

    plugin
        .test_in_list(vec![ItemVolume {
            name: VOLUME_NAME.into(),
            mountpoint: None,
        }])
        .test_get_stub_volume(VolumeInfo {
            mountpoint: None,
            status: VolumeStatus::Cleared.into(),
        });

    assert!(!plugin.is_there(&mountpoint));
}

#[test]
fn unmount_unknown_container_id_no_panic() {
    let mut plugin = TestPlugin::stub().with_stub_volume();

    let mountpoint = plugin.mount(VOLUME_NAME, "id-1").unwrap();
    let result = plugin.unmount(VOLUME_NAME, "ghost-id");
    assert!(result.is_ok());

    assert!(plugin.is_there(&mountpoint));
}

fn full_check(plugin: &TestPlugin, mountpoint: Option<String>, status: VolumeStatus) {
    plugin
        .test_in_list(vec![ItemVolume {
            name: VOLUME_NAME.into(),
            mountpoint: mountpoint.clone(),
        }])
        .test_stub_path_is(mountpoint.clone())
        .test_get_stub_volume(VolumeInfo {
            mountpoint: mountpoint.clone(),
            status: status.into(),
        });
}

#[test]
fn happy_flow_create_mount_get_path_unmount_remove() {
    let mut plugin = TestPlugin::stub().with_stub_volume();
    full_check(&plugin, None, VolumeStatus::Created);

    let mountpoint = plugin.mount(VOLUME_NAME, "id").unwrap();
    full_check(&plugin, Some(mountpoint.clone()), VolumeStatus::Clonned);
    assert!(plugin.is_there(&mountpoint));

    plugin.unmount(VOLUME_NAME, "id").unwrap();
    full_check(&plugin, None, VolumeStatus::Cleared);
    assert!(!plugin.is_there(&mountpoint));

    plugin.remove(VOLUME_NAME).unwrap();
    plugin.test_is_empty_list().test_stub_path_is(None);
}
