use vstd::prelude::*;

use crate::strutil::{ascii_lower_of, str_eq, to_ascii_lower};
use crate::version::VersionBump;

verus! {

/// What an image is set up as: a local build or a release.
#[derive(Clone, Copy, Debug, PartialEq, Eq, Structural)]
pub enum SetupTarget {
    LocalBuild,
    Release,
}

impl SetupTarget {
    pub fn as_str(&self) -> (r: &'static str)
        ensures
            *self == SetupTarget::LocalBuild ==> r@ == "local-build"@,
            *self == SetupTarget::Release ==> r@ == "release"@,
    {
        match self {
            SetupTarget::LocalBuild => "local-build",
            SetupTarget::Release => "release",
        }
    }

    /// Reads a target name, any letter case accepted.
    pub fn parse(s: &str) -> (r: Option<SetupTarget>)
        ensures
            ascii_lower_of(s@) == "local-build"@ ==> r == Some(SetupTarget::LocalBuild),
            ascii_lower_of(s@) == "release"@ ==> r == Some(SetupTarget::Release),
            ascii_lower_of(s@) != "local-build"@ && ascii_lower_of(s@) != "release"@ ==> r
                is None,
    {
        proof {
            reveal_strlit("local-build");
            reveal_strlit("release");
            assert("local-build"@.len() != "release"@.len());
        }
        let lowered = to_ascii_lower(s);
        if str_eq(lowered.as_str(), "local-build") {
            Some(SetupTarget::LocalBuild)
        } else if str_eq(lowered.as_str(), "release") {
            Some(SetupTarget::Release)
        } else {
            None
        }
    }
}

/// How an image is set up after a build.
#[derive(Clone, Debug)]
pub struct SetupOptions {
    no_gt_world: bool,
    target: SetupTarget,
    bump: VersionBump,
}

impl SetupOptions {
    pub closed spec fn no_gt_world_spec(&self) -> bool {
        self.no_gt_world
    }

    pub closed spec fn target_spec(&self) -> SetupTarget {
        self.target
    }

    pub closed spec fn bump_spec(&self) -> VersionBump {
        self.bump
    }

    /// Fresh options: a local build, opening the default world, bumping
    /// the patch component.
    pub fn new() -> (r: SetupOptions)
        ensures
            r.no_gt_world_spec() == false,
            r.target_spec() == SetupTarget::LocalBuild,
            r.bump_spec() == VersionBump::Patch,
    {
        SetupOptions {
            no_gt_world: false,
            target: SetupTarget::LocalBuild,
            bump: VersionBump::Patch,
        }
    }

    pub fn setup_target(&mut self, target: SetupTarget)
        ensures
            final(self).target_spec() == target,
            final(self).no_gt_world_spec() == old(self).no_gt_world_spec(),
            final(self).bump_spec() == old(self).bump_spec(),
    {
        self.target = target;
    }

    pub fn gt_world(&mut self, should_open_gt_world: bool)
        ensures
            final(self).no_gt_world_spec() == !should_open_gt_world,
            final(self).target_spec() == old(self).target_spec(),
            final(self).bump_spec() == old(self).bump_spec(),
    {
        self.no_gt_world = !should_open_gt_world;
    }

    pub fn bump(&mut self, bump: VersionBump)
        ensures
            final(self).bump_spec() == bump,
            final(self).no_gt_world_spec() == old(self).no_gt_world_spec(),
            final(self).target_spec() == old(self).target_spec(),
    {
        self.bump = bump;
    }

    pub fn no_gt_world(&self) -> (r: bool)
        ensures
            r == self.no_gt_world_spec(),
    {
        self.no_gt_world
    }

    pub fn target(&self) -> (r: SetupTarget)
        ensures
            r == self.target_spec(),
    {
        self.target
    }

    pub fn bump_value(&self) -> (r: VersionBump)
        ensures
            r == self.bump_spec(),
    {
        self.bump
    }
}

/// Sets a built image up, for a local build or for a release.
pub struct Setup;

impl Setup {
    pub fn new() -> (r: Setup) {
        Setup {  }
    }
}

} // verus!
