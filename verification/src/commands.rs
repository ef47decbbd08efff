//! The external commands that the operations start, each with the program and
//! the arguments it is given.

use crate::environment::{chroot_blackarch, chroot_dir, chroot_root, value_of, Environment, Key};
use crate::process::{call, Invocation, InvocationView};
use crate::text::{base_name, final_segment, join3, lemma_final_segment_of_joined};
use vstd::prelude::*;

verus! {

/// The query for the type of the filesystem that holds the working copy.
pub open spec fn fs_type_query(home: Seq<char>) -> InvocationView {
    call("stat"@, seq!["-f"@, "-c"@, "%T"@, chroot_blackarch(home)])
}

/// The query for the inode number of the working copy.
pub open spec fn inode_query(home: Seq<char>) -> InvocationView {
    call("stat"@, seq!["-c"@, "%i"@, chroot_blackarch(home)])
}

/// The command that creates the directory of the working copy.
pub open spec fn create_copy(home: Seq<char>) -> InvocationView {
    call("sudo"@, seq!["mkdir"@, chroot_blackarch(home)])
}

/// The command that deletes the subvolume of the working copy.
pub open spec fn delete_copy(home: Seq<char>) -> InvocationView {
    call("sudo"@, seq!["btrfs"@, "subvolume"@, "delete"@, chroot_blackarch(home)])
}

/// The command that takes a snapshot of the root image as the working copy.
pub open spec fn snapshot(home: Seq<char>) -> InvocationView {
    call(
        "sudo"@,
        seq!["btrfs"@, "subvolume"@, "snapshot"@, chroot_root(home), chroot_blackarch(home)],
    )
}

/// The command that mirrors the root image into the working copy: it keeps
/// attributes, stays on one filesystem, and deletes from the working copy
/// what the root image does not hold.
pub open spec fn mirror(home: Seq<char>) -> InvocationView {
    call(
        "sudo"@,
        seq![
            "rsync"@,
            "-a"@,
            "--delete"@,
            "-q"@,
            "-W"@,
            "-x"@,
            chroot_root(home),
            chroot_blackarch(home),
        ],
    )
}

/// The command that populates the root image with the base packages.
pub open spec fn bootstrap(home: Seq<char>) -> InvocationView {
    call(value_of(home, Key::Mkarchroot), seq![chroot_root(home), "base"@, "base-devel"@])
}

/// The command that runs `script` through a shell inside the root image.
pub open spec fn shell_in_root(home: Seq<char>, script: Seq<char>) -> InvocationView {
    call(value_of(home, Key::Nspawn), seq![chroot_root(home), "/bin/sh"@, "-c"@, script])
}

/// The command that enables the secondary repository in the root image, by
/// adding it to the configuration of the package manager.
pub open spec fn enable_multilib(home: Seq<char>) -> InvocationView {
    shell_in_root(
        home,
        "echo -e '\n[multilib]\nInclude = /etc/pacman.d/mirrorlist\n' | sudo tee -a /etc/pacman.conf > /dev/null"@,
    )
}

/// The command that sets the compression of built packages in the root image.
pub open spec fn set_compression(home: Seq<char>) -> InvocationView {
    shell_in_root(
        home,
        "sed -i 's/^PKGEXT.*/PKGEXT='\\''.pkg.tar.zst'\\''/g' /etc/makepkg.conf"@,
    )
}

/// The command that upgrades every package of the root image.
pub open spec fn upgrade(home: Seq<char>) -> InvocationView {
    shell_in_root(home, "pacman --noconfirm -Syuu"@)
}

/// The command that runs `tool` on the bootstrap script inside the root
/// image.
pub open spec fn strap(home: Seq<char>, tool: Seq<char>) -> InvocationView {
    call(value_of(home, Key::Nspawn), seq![chroot_root(home), tool, "strap.sh"@])
}

/// The command that fetches the bootstrap script into the root image.
pub open spec fn fetch_strap(home: Seq<char>) -> InvocationView {
    call(
        value_of(home, Key::Nspawn),
        seq![chroot_root(home), "curl"@, "-O"@, "https://blackarch.org/strap.sh"@],
    )
}

/// The command that runs the bootstrap script in the root image.
pub open spec fn run_strap(home: Seq<char>) -> InvocationView {
    strap(home, "sh"@)
}

/// The command that deletes the bootstrap script from the root image.
pub open spec fn remove_strap(home: Seq<char>) -> InvocationView {
    strap(home, "rm"@)
}

/// The program that lints build manifests.
pub open spec fn linter() -> Seq<char> {
    "pkgcheck"@
}

/// The command that lints the build manifest of the current directory.
pub open spec fn lint() -> InvocationView {
    call(linter(), seq!["PKGBUILD"@])
}

/// The command that builds the package of the current directory inside the
/// working copy.
pub open spec fn build(home: Seq<char>) -> InvocationView {
    call(
        value_of(home, Key::Makechrootpkg),
        seq!["-l"@, value_of(home, Key::BlackarchInstance), "-r"@, chroot_dir(home)],
    )
}

/// Where the package file at `path` is staged: under its own name, without
/// the directories of `path`, in the staging directory of the working copy.
pub open spec fn staged_path(home: Seq<char>, path: Seq<char>) -> Seq<char> {
    chroot_blackarch(home) + "root/"@ + final_segment(path)
}

/// The command that copies the package file at `path` into the staging
/// directory of the working copy.
pub open spec fn stage_copy(home: Seq<char>, path: Seq<char>) -> InvocationView {
    call("sudo"@, seq!["cp"@, path, staged_path(home, path)])
}

/// The command that runs `script` through a shell inside the working copy.
pub open spec fn shell_in_copy(home: Seq<char>, script: Seq<char>) -> InvocationView {
    call(value_of(home, Key::Nspawn), seq![chroot_blackarch(home), "/bin/sh"@, "-c"@, script])
}

/// The command that installs every staged package into the working copy.
pub open spec fn install_staged(home: Seq<char>) -> InvocationView {
    shell_in_copy(home, "pacman -U --noconfirm root/*"@)
}

/// The command that clears the staging directory of the working copy.
pub open spec fn clear_staged(home: Seq<char>) -> InvocationView {
    shell_in_copy(home, "rm -rf root/*"@)
}

/// The command that installs the package file `package` into the working
/// copy.
pub open spec fn install_package(home: Seq<char>, package: Seq<char>) -> InvocationView {
    call(
        "sudo"@,
        seq![
            value_of(home, Key::Pacman),
            "--root"@,
            chroot_blackarch(home),
            "-U"@,
            "--noconfirm"@,
            package,
        ],
    )
}

/// The command that runs `executable` through a shell inside the working
/// copy.
pub open spec fn execute_in_copy(home: Seq<char>, executable: Seq<char>) -> InvocationView {
    call(
        "sudo"@,
        seq![value_of(home, Key::Nspawn), chroot_blackarch(home), "sh"@, "-c"@, executable],
    )
}

/// A package file is staged under its own name, whatever the directories it
/// lies in: two paths that end in the same name are staged at the same place,
/// directly in the staging directory of the working copy.
pub proof fn lemma_staged_under_own_name(home: Seq<char>, dir: Seq<char>, name: Seq<char>)
    requires
        !name.contains('/'),
    ensures
        staged_path(home, dir + seq!['/'] + name) == chroot_blackarch(home) + "root/"@ + name,
        staged_path(home, name) == chroot_blackarch(home) + "root/"@ + name,
        stage_copy(home, dir + seq!['/'] + name).args == seq![
            "cp"@,
            dir + seq!['/'] + name,
            chroot_blackarch(home) + "root/"@ + name,
        ],
{
    lemma_final_segment_of_joined(dir, name);
}

impl Invocation {
    /// The query for the type of the filesystem that holds the working copy.
    pub fn fs_type_query(env: &Environment) -> (invocation: Invocation)
        ensures
            invocation@ == fs_type_query(env.home()),
    {
        let copy = env.value(Key::ChrootBlackarch);
        let invocation = Invocation::new("stat", vec!["-f", "-c", "%T", copy]);
        assert(invocation@.args =~= fs_type_query(env.home()).args);
        invocation
    }

    /// The query for the inode number of the working copy.
    pub fn inode_query(env: &Environment) -> (invocation: Invocation)
        ensures
            invocation@ == inode_query(env.home()),
    {
        let copy = env.value(Key::ChrootBlackarch);
        let invocation = Invocation::new("stat", vec!["-c", "%i", copy]);
        assert(invocation@.args =~= inode_query(env.home()).args);
        invocation
    }

    /// The command that creates the directory of the working copy.
    pub fn create_copy(env: &Environment) -> (invocation: Invocation)
        ensures
            invocation@ == create_copy(env.home()),
    {
        let copy = env.value(Key::ChrootBlackarch);
        let invocation = Invocation::new("sudo", vec!["mkdir", copy]);
        assert(invocation@.args =~= create_copy(env.home()).args);
        invocation
    }

    /// The command that deletes the subvolume of the working copy.
    pub fn delete_copy(env: &Environment) -> (invocation: Invocation)
        ensures
            invocation@ == delete_copy(env.home()),
    {
        let copy = env.value(Key::ChrootBlackarch);
        let invocation = Invocation::new("sudo", vec!["btrfs", "subvolume", "delete", copy]);
        assert(invocation@.args =~= delete_copy(env.home()).args);
        invocation
    }

    /// The command that takes a snapshot of the root image as the working
    /// copy.
    pub fn snapshot(env: &Environment) -> (invocation: Invocation)
        ensures
            invocation@ == snapshot(env.home()),
    {
        let root = env.value(Key::ChrootRoot);
        let copy = env.value(Key::ChrootBlackarch);
        let invocation = Invocation::new(
            "sudo",
            vec!["btrfs", "subvolume", "snapshot", root, copy],
        );
        assert(invocation@.args =~= snapshot(env.home()).args);
        invocation
    }

    /// The command that mirrors the root image into the working copy.
    pub fn mirror(env: &Environment) -> (invocation: Invocation)
        ensures
            invocation@ == mirror(env.home()),
    {
        let root = env.value(Key::ChrootRoot);
        let copy = env.value(Key::ChrootBlackarch);
        let invocation = Invocation::new(
            "sudo",
            vec!["rsync", "-a", "--delete", "-q", "-W", "-x", root, copy],
        );
        assert(invocation@.args =~= mirror(env.home()).args);
        invocation
    }

    /// The command that populates the root image with the base packages.
    pub fn bootstrap(env: &Environment) -> (invocation: Invocation)
        ensures
            invocation@ == bootstrap(env.home()),
    {
        let invocation = Invocation::new(
            env.value(Key::Mkarchroot),
            vec![env.value(Key::ChrootRoot), "base", "base-devel"],
        );
        assert(invocation@.args =~= bootstrap(env.home()).args);
        invocation
    }

    /// The command that runs `script` through a shell inside the root image.
    pub fn shell_in_root(env: &Environment, script: &str) -> (invocation: Invocation)
        ensures
            invocation@ == shell_in_root(env.home(), script@),
    {
        let invocation = Invocation::new(
            env.value(Key::Nspawn),
            vec![env.value(Key::ChrootRoot), "/bin/sh", "-c", script],
        );
        assert(invocation@.args =~= shell_in_root(env.home(), script@).args);
        invocation
    }

    /// The command that enables the secondary repository in the root image.
    pub fn enable_multilib(env: &Environment) -> (invocation: Invocation)
        ensures
            invocation@ == enable_multilib(env.home()),
    {
        Invocation::shell_in_root(
            env,
            "echo -e '\n[multilib]\nInclude = /etc/pacman.d/mirrorlist\n' | sudo tee -a /etc/pacman.conf > /dev/null",
        )
    }

    /// The command that sets the compression of built packages in the root
    /// image.
    pub fn set_compression(env: &Environment) -> (invocation: Invocation)
        ensures
            invocation@ == set_compression(env.home()),
    {
        Invocation::shell_in_root(
            env,
            "sed -i 's/^PKGEXT.*/PKGEXT='\\''.pkg.tar.zst'\\''/g' /etc/makepkg.conf",
        )
    }

    /// The command that upgrades every package of the root image.
    pub fn upgrade(env: &Environment) -> (invocation: Invocation)
        ensures
            invocation@ == upgrade(env.home()),
    {
        Invocation::shell_in_root(env, "pacman --noconfirm -Syuu")
    }

    /// The command that fetches the bootstrap script into the root image.
    pub fn fetch_strap(env: &Environment) -> (invocation: Invocation)
        ensures
            invocation@ == fetch_strap(env.home()),
    {
        let invocation = Invocation::new(
            env.value(Key::Nspawn),
            vec![env.value(Key::ChrootRoot), "curl", "-O", "https://blackarch.org/strap.sh"],
        );
        assert(invocation@.args =~= fetch_strap(env.home()).args);
        invocation
    }

    /// The command that runs `tool` on the bootstrap script inside the root
    /// image.
    fn strap(env: &Environment, tool: &str) -> (invocation: Invocation)
        ensures
            invocation@ == strap(env.home(), tool@),
    {
        let invocation = Invocation::new(
            env.value(Key::Nspawn),
            vec![env.value(Key::ChrootRoot), tool, "strap.sh"],
        );
        assert(invocation@.args =~= strap(env.home(), tool@).args);
        invocation
    }

    /// The command that runs the bootstrap script in the root image.
    pub fn run_strap(env: &Environment) -> (invocation: Invocation)
        ensures
            invocation@ == run_strap(env.home()),
    {
        Invocation::strap(env, "sh")
    }

    /// The command that deletes the bootstrap script from the root image.
    pub fn remove_strap(env: &Environment) -> (invocation: Invocation)
        ensures
            invocation@ == remove_strap(env.home()),
    {
        Invocation::strap(env, "rm")
    }

    /// The command that lints the build manifest of the current directory.
    pub fn lint() -> (invocation: Invocation)
        ensures
            invocation@ == lint(),
    {
        let invocation = Invocation::new("pkgcheck", vec!["PKGBUILD"]);
        assert(invocation@.args =~= lint().args);
        invocation
    }

    /// The command that builds the package of the current directory inside
    /// the working copy.
    pub fn build(env: &Environment) -> (invocation: Invocation)
        ensures
            invocation@ == build(env.home()),
    {
        let invocation = Invocation::new(
            env.value(Key::Makechrootpkg),
            vec!["-l", env.value(Key::BlackarchInstance), "-r", env.value(Key::ChrootDir)],
        );
        assert(invocation@.args =~= build(env.home()).args);
        invocation
    }

    /// The command that copies the package file at `path` into the staging
    /// directory of the working copy, under its own name.
    pub fn stage_copy(env: &Environment, path: &str) -> (invocation: Invocation)
        ensures
            invocation@ == stage_copy(env.home(), path@),
    {
        let name = base_name(path);
        let target = join3(env.value(Key::ChrootBlackarch), "root/", name.as_str());
        let invocation = Invocation::new("sudo", vec!["cp", path, target.as_str()]);
        assert(invocation@.args =~= stage_copy(env.home(), path@).args);
        invocation
    }

    /// The command that runs `script` through a shell inside the working
    /// copy.
    pub fn shell_in_copy(env: &Environment, script: &str) -> (invocation: Invocation)
        ensures
            invocation@ == shell_in_copy(env.home(), script@),
    {
        let invocation = Invocation::new(
            env.value(Key::Nspawn),
            vec![env.value(Key::ChrootBlackarch), "/bin/sh", "-c", script],
        );
        assert(invocation@.args =~= shell_in_copy(env.home(), script@).args);
        invocation
    }

    /// The command that installs every staged package into the working copy.
    pub fn install_staged(env: &Environment) -> (invocation: Invocation)
        ensures
            invocation@ == install_staged(env.home()),
    {
        Invocation::shell_in_copy(env, "pacman -U --noconfirm root/*")
    }

    /// The command that clears the staging directory of the working copy.
    pub fn clear_staged(env: &Environment) -> (invocation: Invocation)
        ensures
            invocation@ == clear_staged(env.home()),
    {
        Invocation::shell_in_copy(env, "rm -rf root/*")
    }

    /// The command that installs the package file `package` into the working
    /// copy.
    pub fn install_package(env: &Environment, package: &str) -> (invocation: Invocation)
        ensures
            invocation@ == install_package(env.home(), package@),
    {
        let invocation = Invocation::new(
            "sudo",
            vec![
                env.value(Key::Pacman),
                "--root",
                env.value(Key::ChrootBlackarch),
                "-U",
                "--noconfirm",
                package,
            ],
        );
        assert(invocation@.args =~= install_package(env.home(), package@).args);
        invocation
    }

    /// The command that runs `executable` through a shell inside the working
    /// copy.
    pub fn execute_in_copy(env: &Environment, executable: &str) -> (invocation: Invocation)
        ensures
            invocation@ == execute_in_copy(env.home(), executable@),
    {
        let invocation = Invocation::new(
            "sudo",
            vec![env.value(Key::Nspawn), env.value(Key::ChrootBlackarch), "sh", "-c", executable],
        );
        assert(invocation@.args =~= execute_in_copy(env.home(), executable@).args);
        invocation
    }
}

} // verus!
