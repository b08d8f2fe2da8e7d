# gitvol

A Docker volume driver whose volumes are clones of git repositories. A volume
is cloned into its directory by its first mount, shared by all containers that
mount it, and deleted with the unmount of the last one.

- `src/` is the library, verified with Verus: the options of a volume, the store
  of volumes, and the operations on them. It touches neither the file system nor
  git. `mount`, `unmount` and `remove` say what they wait for (`effect`), and go
  on with what became of it (`resume_mount`, `resume_unmount`, `resume`). A mount
  or an unmount that waits holds its volume. Until it is done or given up, no
  other operation begins on that volume: it has to be tried again.
  `state` defines each step, `outcome` what a whole operation comes to, and
  `laws` what holds of all of them.
- `tests/` runs the library against a file system and repositories in memory.
- `app/` is the driver around the library: asynchronous, with the real file
  system, the git command and JSON.

## Options of a volume

- `url` (required): an `http` or `https` URL.
- `branch` or `tag`, but not both: what to check out.
- `refetch`: `"true"` for a fetch on each mount of a volume that is cloned.

The directory of a volume is an entry of the base path, named after the volume.
A `/`, a `%`, a null character and a dot at the beginning stand there as `%2F`,
`%25`, `%00` and `%2E`, so different volumes have different directories. A volume
has its directory from the first clone that goes well until the last container
has left it. What a mount that failed has left in the directory is deleted by the
next mount, by an unmount, or with the volume.
