//! The fixed set of paths and tool locations that every operation works with,
//! all derived from the user's home directory.

use crate::text::{join, same_text};
use vstd::prelude::*;

verus! {

/// The values an environment holds, one key for each.
#[derive(Clone, Copy, Debug, PartialEq, Eq, Structural)]
pub enum Key {
    /// The user's home directory.
    HomeDir,
    /// The directory that holds the root image and the working copy.
    ChrootDir,
    /// The tool that populates a fresh root image.
    Mkarchroot,
    /// The tool that runs a command inside a root image.
    Nspawn,
    /// The pristine root image.
    ChrootRoot,
    /// The disposable working copy of the root image.
    ChrootBlackarch,
    /// The name of the working copy as the package builder knows it.
    BlackarchInstance,
    /// The tool that builds a package inside the working copy.
    Makechrootpkg,
    /// The package manager.
    Pacman,
}

/// The key that `name` spells, if it spells one.
pub open spec fn key_named(name: Seq<char>) -> Option<Key> {
    if name == "home_dir"@ {
        Some(Key::HomeDir)
    } else if name == "chroot_dir"@ {
        Some(Key::ChrootDir)
    } else if name == "mkarchroot"@ {
        Some(Key::Mkarchroot)
    } else if name == "nspawn"@ {
        Some(Key::Nspawn)
    } else if name == "chroot_root"@ {
        Some(Key::ChrootRoot)
    } else if name == "chroot_blackarch"@ {
        Some(Key::ChrootBlackarch)
    } else if name == "blackarch_instance"@ {
        Some(Key::BlackarchInstance)
    } else if name == "makechrootpkg"@ {
        Some(Key::Makechrootpkg)
    } else if name == "pacman"@ {
        Some(Key::Pacman)
    } else {
        None
    }
}

/// The name that spells `key`.
pub open spec fn key_name(key: Key) -> Seq<char> {
    match key {
        Key::HomeDir => "home_dir"@,
        Key::ChrootDir => "chroot_dir"@,
        Key::Mkarchroot => "mkarchroot"@,
        Key::Nspawn => "nspawn"@,
        Key::ChrootRoot => "chroot_root"@,
        Key::ChrootBlackarch => "chroot_blackarch"@,
        Key::BlackarchInstance => "blackarch_instance"@,
        Key::Makechrootpkg => "makechrootpkg"@,
        Key::Pacman => "pacman"@,
    }
}

/// The directory that holds the root image and the working copy.
pub open spec fn chroot_dir(home: Seq<char>) -> Seq<char> {
    home + "/blackarch_chroot"@
}

/// The pristine root image.
pub open spec fn chroot_root(home: Seq<char>) -> Seq<char> {
    chroot_dir(home) + "/root/"@
}

/// The disposable working copy of the root image.
pub open spec fn chroot_blackarch(home: Seq<char>) -> Seq<char> {
    chroot_dir(home) + "/blackarch/"@
}

/// The value that belongs to `key` for a user whose home directory is `home`.
pub open spec fn value_of(home: Seq<char>, key: Key) -> Seq<char> {
    match key {
        Key::HomeDir => home,
        Key::ChrootDir => chroot_dir(home),
        Key::Mkarchroot => "/usr/bin/mkarchroot"@,
        Key::Nspawn => "/usr/bin/arch-nspawn"@,
        Key::ChrootRoot => chroot_root(home),
        Key::ChrootBlackarch => chroot_blackarch(home),
        Key::BlackarchInstance => "blackarch"@,
        Key::Makechrootpkg => "/usr/bin/makechrootpkg"@,
        Key::Pacman => "/usr/bin/pacman"@,
    }
}

/// What a lookup by name gives for a name that spells no key.
pub open spec fn unknown_key_text() -> Seq<char> {
    "Error returning the value."@
}

/// What a lookup by name gives: the key's value, or the text for an unknown key.
pub open spec fn named_value(home: Seq<char>, name: Seq<char>) -> Seq<char> {
    match key_named(name) {
        Some(key) => value_of(home, key),
        None => unknown_key_text(),
    }
}

impl Key {
    /// The name that spells the key.
    pub fn name(&self) -> (name: &'static str)
        ensures
            name@ == key_name(*self),
    {
        match self {
            Key::HomeDir => "home_dir",
            Key::ChrootDir => "chroot_dir",
            Key::Mkarchroot => "mkarchroot",
            Key::Nspawn => "nspawn",
            Key::ChrootRoot => "chroot_root",
            Key::ChrootBlackarch => "chroot_blackarch",
            Key::BlackarchInstance => "blackarch_instance",
            Key::Makechrootpkg => "makechrootpkg",
            Key::Pacman => "pacman",
        }
    }
}

/// Why no environment could be resolved.
#[derive(Clone, Copy, Debug, PartialEq, Eq, Structural)]
pub enum Unresolved {
    /// The home directory is not known.
    HomeUnset,
}

/// What is told of an environment that could not be resolved.
pub open spec fn unresolved_text(reason: Unresolved) -> Seq<char> {
    match reason {
        Unresolved::HomeUnset => "Failed to read HOME system variable."@,
    }
}

impl Unresolved {
    /// What is told of an environment that could not be resolved.
    pub fn diagnostic(&self) -> (text: String)
        ensures
            text@ == unresolved_text(*self),
    {
        match self {
            Unresolved::HomeUnset => "Failed to read HOME system variable.".to_owned(),
        }
    }
}

/// The values of every key, resolved once from a home directory.
#[derive(Debug)]
pub struct Environment {
    home_dir: String,
    chroot_dir: String,
    chroot_root: String,
    chroot_blackarch: String,
    mkarchroot: String,
    nspawn: String,
    makechrootpkg: String,
    pacman: String,
    blackarch_instance: String,
}

impl Environment {
    #[verifier::type_invariant]
    spec fn resolved(&self) -> bool {
        &&& self.chroot_dir@ == value_of(self.home_dir@, Key::ChrootDir)
        &&& self.chroot_root@ == value_of(self.home_dir@, Key::ChrootRoot)
        &&& self.chroot_blackarch@ == value_of(self.home_dir@, Key::ChrootBlackarch)
        &&& self.mkarchroot@ == value_of(self.home_dir@, Key::Mkarchroot)
        &&& self.nspawn@ == value_of(self.home_dir@, Key::Nspawn)
        &&& self.makechrootpkg@ == value_of(self.home_dir@, Key::Makechrootpkg)
        &&& self.pacman@ == value_of(self.home_dir@, Key::Pacman)
        &&& self.blackarch_instance@ == value_of(self.home_dir@, Key::BlackarchInstance)
    }

    /// The home directory that the environment was resolved from.
    pub closed spec fn home(&self) -> Seq<char> {
        self.home_dir@
    }

    /// Resolves every value from the home directory `home`.
    pub fn resolve(home: &str) -> (env: Environment)
        ensures
            env.home() == home@,
    {
        let chroot_dir = join(home, "/blackarch_chroot");
        let chroot_root = join(chroot_dir.as_str(), "/root/");
        let chroot_blackarch = join(chroot_dir.as_str(), "/blackarch/");
        Environment {
            home_dir: home.to_owned(),
            chroot_dir,
            chroot_root,
            chroot_blackarch,
            mkarchroot: "/usr/bin/mkarchroot".to_owned(),
            nspawn: "/usr/bin/arch-nspawn".to_owned(),
            makechrootpkg: "/usr/bin/makechrootpkg".to_owned(),
            pacman: "/usr/bin/pacman".to_owned(),
            blackarch_instance: "blackarch".to_owned(),
        }
    }

    /// Resolves every value from the home directory, where it is known.
    /// Without a home directory there is no environment, and so no operation
    /// can take a step.
    pub fn from_home(home: Option<&str>) -> (resolved: Result<Environment, Unresolved>)
        ensures
            match home {
                Some(known) => resolved matches Ok(env) && env.home() == known@,
                None => resolved matches Err(reason) && reason == Unresolved::HomeUnset,
            },
    {
        match home {
            Some(known) => Ok(Environment::resolve(known)),
            None => Err(Unresolved::HomeUnset),
        }
    }

    /// The value that belongs to `key`.
    pub fn value(&self, key: Key) -> (value: &str)
        ensures
            value@ == value_of(self.home(), key),
    {
        proof {
            use_type_invariant(self);
        }
        match key {
            Key::HomeDir => self.home_dir.as_str(),
            Key::ChrootDir => self.chroot_dir.as_str(),
            Key::Mkarchroot => self.mkarchroot.as_str(),
            Key::Nspawn => self.nspawn.as_str(),
            Key::ChrootRoot => self.chroot_root.as_str(),
            Key::ChrootBlackarch => self.chroot_blackarch.as_str(),
            Key::BlackarchInstance => self.blackarch_instance.as_str(),
            Key::Makechrootpkg => self.makechrootpkg.as_str(),
            Key::Pacman => self.pacman.as_str(),
        }
    }
}

/// The key that `name` spells, if it spells one.
pub fn parse_key(name: &str) -> (key: Option<Key>)
    ensures
        key == key_named(name@),
{
    if same_text(name, "home_dir") {
        Some(Key::HomeDir)
    } else if same_text(name, "chroot_dir") {
        Some(Key::ChrootDir)
    } else if same_text(name, "mkarchroot") {
        Some(Key::Mkarchroot)
    } else if same_text(name, "nspawn") {
        Some(Key::Nspawn)
    } else if same_text(name, "chroot_root") {
        Some(Key::ChrootRoot)
    } else if same_text(name, "chroot_blackarch") {
        Some(Key::ChrootBlackarch)
    } else if same_text(name, "blackarch_instance") {
        Some(Key::BlackarchInstance)
    } else if same_text(name, "makechrootpkg") {
        Some(Key::Makechrootpkg)
    } else if same_text(name, "pacman") {
        Some(Key::Pacman)
    } else {
        None
    }
}

/// Looks a value up by the name of its key, for a user whose home directory
/// is `home`. A name that spells no key gives a fixed text in place of a value.
pub fn get_vars(home: &str, get_var: &str) -> (value: String)
    ensures
        value@ == named_value(home@, get_var@),
{
    let env = Environment::resolve(home);
    match parse_key(get_var) {
        Some(key) => env.value(key).to_owned(),
        None => "Error returning the value.".to_owned(),
    }
}

/// The root image and the working copy are two different directories, both
/// strictly inside the chroot directory.
pub proof fn lemma_images_nested_in_chroot(home: Seq<char>)
    ensures
        chroot_root(home) != chroot_blackarch(home),
        chroot_dir(home).is_prefix_of(chroot_root(home)),
        chroot_dir(home).is_prefix_of(chroot_blackarch(home)),
        chroot_root(home)[chroot_dir(home).len() as int] == '/',
        chroot_blackarch(home)[chroot_dir(home).len() as int] == '/',
        chroot_dir(home).len() + 1 < chroot_root(home).len(),
        chroot_dir(home).len() + 1 < chroot_blackarch(home).len(),
{
    reveal_strlit("/root/");
    reveal_strlit("/blackarch/");
    let dir = chroot_dir(home);
    assert("/root/"@.len() == 6);
    assert("/blackarch/"@.len() == 11);
    assert(chroot_root(home).len() != chroot_blackarch(home).len());
    assert(chroot_root(home).subrange(0, dir.len() as int) =~= dir);
    assert(chroot_blackarch(home).subrange(0, dir.len() as int) =~= dir);
    assert(chroot_root(home)[dir.len() as int] == "/root/"@[0]);
    assert(chroot_blackarch(home)[dir.len() as int] == "/blackarch/"@[0]);
}

/// Each key is the one that its own name spells: no two keys share a name.
pub proof fn lemma_key_round_trip(key: Key)
    ensures
        key_named(key_name(key)) == Some(key),
{
    reveal_strlit("home_dir");
    reveal_strlit("chroot_dir");
    reveal_strlit("mkarchroot");
    reveal_strlit("nspawn");
    reveal_strlit("chroot_root");
    reveal_strlit("chroot_blackarch");
    reveal_strlit("blackarch_instance");
    reveal_strlit("makechrootpkg");
    reveal_strlit("pacman");
    assert("home_dir"@.len() == 8);
    assert("chroot_dir"@.len() == 10);
    assert("mkarchroot"@.len() == 10);
    assert("nspawn"@.len() == 6);
    assert("chroot_root"@.len() == 11);
    assert("chroot_blackarch"@.len() == 16);
    assert("blackarch_instance"@.len() == 18);
    assert("makechrootpkg"@.len() == 13);
    assert("pacman"@.len() == 6);
    assert("chroot_dir"@[0] != "mkarchroot"@[0]);
    assert("nspawn"@[0] != "pacman"@[0]);
}

} // verus!
