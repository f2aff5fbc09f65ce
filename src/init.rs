//! Starting values for a new configuration file: blank, or filled with
//! examples.
use vstd::prelude::*;

use crate::text::{push_text, string_from};

verus! {

/// The values a new configuration is written from.
#[derive(Clone, Debug, PartialEq)]
pub struct InitVars {
    pub flag_regex: String,
    pub registry_domain: String,
    pub registry_build_user: String,
    pub registry_build_pass: String,
    pub registry_cluster_user: String,
    pub registry_cluster_pass: String,
    pub defaults_difficulty: String,
    pub defaults_resources_cpu: String,
    pub defaults_resources_memory: String,
    pub points: Vec<Points>,
    pub profiles: Vec<Profile>,
}

/// The points range of one difficulty.
#[derive(Clone, Debug, PartialEq)]
pub struct Points {
    pub difficulty: String,
    pub min: String,
    pub max: String,
}

/// One deployment environment, as a new configuration writes it.
#[derive(Clone, Debug, PartialEq)]
pub struct Profile {
    pub profile_name: String,
    pub frontend_url: String,
    pub frontend_token: String,
    pub challenges_domain: String,
    pub kubecontext: String,
    pub s3_bucket_name: String,
    pub s3_endpoint: String,
    pub s3_region: String,
    pub s3_accesskey: String,
    pub s3_secretaccesskey: String,
}

impl Points {
    /// `(<difficulty>  Points: <min>-<max>)`, as the points are shown.
    pub fn to_display_string(&self) -> (r: String)
        ensures
            r@ == seq!['('] + self.difficulty@ + seq![' ', ' ', 'P', 'o', 'i', 'n', 't', 's', ':', ' ']
                + self.min@ + seq!['-'] + self.max@ + seq![')'],
    {
        proof {
            reveal_strlit("  Points: ");
        }
        let mut cs: Vec<char> = Vec::new();
        cs.push('(');
        push_text(&mut cs, self.difficulty.as_str());
        push_text(&mut cs, "  Points: ");
        push_text(&mut cs, self.min.as_str());
        cs.push('-');
        push_text(&mut cs, self.max.as_str());
        cs.push(')');
        assert(cs@ =~= seq!['('] + self.difficulty@ + seq![
            ' ',
            ' ',
            'P',
            'o',
            'i',
            'n',
            't',
            's',
            ':',
            ' ',
        ] + self.min@ + seq!['-'] + self.max@ + seq![')']);
        string_from(&cs)
    }
}

/// Every field of the profile but its name is empty.
pub open spec fn profile_blank(p: Profile) -> bool {
    &&& p.frontend_url@.len() == 0
    &&& p.frontend_token@.len() == 0
    &&& p.challenges_domain@.len() == 0
    &&& p.kubecontext@.len() == 0
    &&& p.s3_bucket_name@.len() == 0
    &&& p.s3_endpoint@.len() == 0
    &&& p.s3_region@.len() == 0
    &&& p.s3_accesskey@.len() == 0
    &&& p.s3_secretaccesskey@.len() == 0
}

/// Empty values: one empty points range and one profile named `default`
/// with nothing else set.
pub fn blank_init() -> (r: InitVars)
    ensures
        r.flag_regex@.len() == 0,
        r.registry_domain@.len() == 0,
        r.registry_build_user@.len() == 0,
        r.registry_build_pass@.len() == 0,
        r.registry_cluster_user@.len() == 0,
        r.registry_cluster_pass@.len() == 0,
        r.defaults_difficulty@.len() == 0,
        r.defaults_resources_cpu@.len() == 0,
        r.defaults_resources_memory@.len() == 0,
        r.points@.len() == 1,
        r.points@[0].difficulty@.len() == 0,
        r.points@[0].min@.len() == 0,
        r.points@[0].max@.len() == 0,
        r.profiles@.len() == 1,
        r.profiles@[0].profile_name@ == "default"@,
        profile_blank(r.profiles@[0]),
{
    InitVars {
        flag_regex: String::new(),
        registry_domain: String::new(),
        registry_build_user: String::new(),
        registry_build_pass: String::new(),
        registry_cluster_user: String::new(),
        registry_cluster_pass: String::new(),
        defaults_difficulty: String::new(),
        defaults_resources_cpu: String::new(),
        defaults_resources_memory: String::new(),
        points: vec![Points { difficulty: String::new(), min: String::new(), max: String::new() }],
        profiles: vec![
            Profile {
                profile_name: "default".to_owned(),
                frontend_url: String::new(),
                frontend_token: String::new(),
                challenges_domain: String::new(),
                kubecontext: String::new(),
                s3_bucket_name: String::new(),
                s3_endpoint: String::new(),
                s3_region: String::new(),
                s3_accesskey: String::new(),
                s3_secretaccesskey: String::new(),
            },
        ],
    }
}

/// Example values: a sample registry, two points ranges and one profile.
/// The cluster password repeats the cluster user name.
pub fn example_init() -> (r: InitVars)
    ensures
        r.flag_regex@ == "ctf{.*}"@,
        r.registry_domain@ == "ghcr.io/youraccount"@,
        r.registry_build_user@ == "admin"@,
        r.registry_build_pass@ == "notrealcreds"@,
        r.registry_cluster_user@ == "cluster_user"@,
        r.registry_cluster_pass@ == "cluster_user"@,
        r.defaults_difficulty@ == "1"@,
        r.defaults_resources_cpu@ == "1"@,
        r.defaults_resources_memory@ == "500M"@,
        r.points@.len() == 2,
        r.points@[0].difficulty@ == "1"@,
        r.points@[0].min@ == "200"@,
        r.points@[0].max@ == "500"@,
        r.points@[1].difficulty@ == "2"@,
        r.points@[1].min@ == "1"@,
        r.points@[1].max@ == "1337"@,
        r.profiles@.len() == 1,
        r.profiles@[0].profile_name@ == "default"@,
        r.profiles@[0].frontend_url@ == "https://ctf.coolguy.invalid"@,
        r.profiles@[0].frontend_token@ == "secretsecretsecret"@,
        r.profiles@[0].challenges_domain@ == "chals.coolguy.invalid"@,
        r.profiles@[0].kubecontext@ == "ctf-cluster"@,
        r.profiles@[0].s3_bucket_name@ == "ctf-bucket"@,
        r.profiles@[0].s3_endpoint@ == "s3.coolguy.invalid"@,
        r.profiles@[0].s3_region@ == "us-west-2"@,
        r.profiles@[0].s3_accesskey@ == "accesskey"@,
        r.profiles@[0].s3_secretaccesskey@ == "secretkey"@,
{
    InitVars {
        flag_regex: "ctf{.*}".to_owned(),
        registry_domain: "ghcr.io/youraccount".to_owned(),
        registry_build_user: "admin".to_owned(),
        registry_build_pass: "notrealcreds".to_owned(),
        registry_cluster_user: "cluster_user".to_owned(),
        registry_cluster_pass: "cluster_user".to_owned(),
        defaults_difficulty: "1".to_owned(),
        defaults_resources_cpu: "1".to_owned(),
        defaults_resources_memory: "500M".to_owned(),
        points: vec![
            Points { difficulty: "1".to_owned(), min: "200".to_owned(), max: "500".to_owned() },
            Points { difficulty: "2".to_owned(), min: "1".to_owned(), max: "1337".to_owned() },
        ],
        profiles: vec![
            Profile {
                profile_name: "default".to_owned(),
                frontend_url: "https://ctf.coolguy.invalid".to_owned(),
                frontend_token: "secretsecretsecret".to_owned(),
                challenges_domain: "chals.coolguy.invalid".to_owned(),
                kubecontext: "ctf-cluster".to_owned(),
                s3_bucket_name: "ctf-bucket".to_owned(),
                s3_endpoint: "s3.coolguy.invalid".to_owned(),
                s3_region: "us-west-2".to_owned(),
                s3_accesskey: "accesskey".to_owned(),
                s3_secretaccesskey: "secretkey".to_owned(),
            },
        ],
    }
}

} // verus!
