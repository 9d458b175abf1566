//! The build-profile configuration that the embedder crate's build script
//! declares: production builds get `servo_production`, every other build
//! `servo_do_not_use_in_production`.

use vstd::prelude::*;
use vstd::string::StrSliceExecFns;
use vstd::string::StringExecFns;

verus! {

/// Whether a cargo profile name is a production profile: `production`
/// itself, or any name that starts with `production-`.
pub open spec fn is_production_profile(profile: Seq<char>) -> bool {
    ||| profile == "production"@
    ||| profile.len() >= 11 && profile.take(11) == "production-"@
}

/// The lines the build script prints for the profile `profile`: the two
/// `check-cfg` declarations, then the configuration the profile selects.
pub open spec fn profile_directives(profile: Seq<char>) -> Seq<Seq<char>> {
    seq![
        "cargo::rustc-check-cfg=cfg(servo_production)"@,
        "cargo::rustc-check-cfg=cfg(servo_do_not_use_in_production)"@,
        if is_production_profile(profile) {
            "cargo:rustc-cfg=servo_production"@
        } else {
            "cargo:rustc-cfg=servo_do_not_use_in_production"@
        },
    ]
}

/// Whether `profile` names a production profile.
pub fn is_production(profile: &str) -> (b: bool)
    ensures
        b == is_production_profile(profile@),
        b <==> (profile@ == "production"@ || (profile@.len() >= 11 && profile@.take(11)
            == "production-"@)),
{
    proof {
        reveal_strlit("production");
        reveal_strlit("production-");
    }
    let n = profile.unicode_len();
    if n == 10 {
        String::from_str(profile) == String::from_str("production")
    } else if n >= 11 {
        let head = profile.substring_char(0, 11);
        assert(head@ == profile@.take(11));
        String::from_str(head) == String::from_str("production-")
    } else {
        false
    }
}

/// The configuration lines the build script prints for the profile `profile`.
pub fn profile_cfg_directives(profile: &str) -> (v: Vec<String>)
    ensures
        v.deep_view() == profile_directives(profile@),
{
    let mut v: Vec<String> = Vec::new();
    v.push(String::from_str("cargo::rustc-check-cfg=cfg(servo_production)"));
    v.push(String::from_str("cargo::rustc-check-cfg=cfg(servo_do_not_use_in_production)"));
    if is_production(profile) {
        v.push(String::from_str("cargo:rustc-cfg=servo_production"));
    } else {
        v.push(String::from_str("cargo:rustc-cfg=servo_do_not_use_in_production"));
    }
    assert(v.deep_view() =~= profile_directives(profile@));
    v
}

/// A profile is a production profile exactly when it is `production` or
/// its name starts with `production-`; so a production profile's name is at
/// least ten characters long and begins with `production`, and other
/// profiles such as `release`, `profiling` or `productionx` are not.
pub proof fn lemma_production_profiles(profile: Seq<char>)
    ensures
        is_production_profile(profile) <==> (profile == "production"@ || (profile.len() >= 11
            && profile.take(11) == "production-"@)),
        is_production_profile(profile) ==> profile.len() >= 10 && profile.take(10)
            == "production"@,
        !is_production_profile("release"@),
        !is_production_profile("profiling"@),
        !is_production_profile("productionx"@),
        is_production_profile("production-stripped"@),
        profile_directives(profile).len() == 3,
        profile_directives(profile)[0] == "cargo::rustc-check-cfg=cfg(servo_production)"@,
        profile_directives(profile)[1] == "cargo::rustc-check-cfg=cfg(servo_do_not_use_in_production)"@,
        profile_directives(profile)[2] == (if is_production_profile(profile) {
            "cargo:rustc-cfg=servo_production"@
        } else {
            "cargo:rustc-cfg=servo_do_not_use_in_production"@
        }),
{
    reveal_strlit("production");
    reveal_strlit("production-");
    reveal_strlit("release");
    reveal_strlit("profiling");
    reveal_strlit("productionx");
    reveal_strlit("production-stripped");
    assert("release"@.len() == 7 && "profiling"@.len() == 9 && "production"@.len() == 10);
    assert("release"@ != "production"@);
    assert("profiling"@ != "production"@);
    if is_production_profile(profile) {
        if profile.len() >= 11 && profile.take(11) == "production-"@ {
            assert(profile.take(10) =~= profile.take(11).take(10));
            assert("production-"@.take(10) =~= "production"@);
        } else {
            assert(profile.take(10) =~= profile);
        }
    }
    assert("productionx"@.take(11) != "production-"@) by {
        assert("productionx"@.take(11)[10] != "production-"@[10]);
    }
    assert("production-stripped"@.take(11) =~= "production-"@);
}

} // verus!
