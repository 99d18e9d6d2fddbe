//! Builds: what is built from where, and into which image.

pub mod docker;
pub mod build_flow;
pub mod local_docker;

use crate::text::concat3;
use vstd::prelude::*;
use vstd::string::*;

verus! {

/// The kinds of build platform.
#[derive(Clone, Copy, Debug, PartialEq, Eq, Structural)]
pub enum Kind {
    LocalDocker,
}

/// A container image: its repository name, its tag, the application it
/// belongs to, the commit it was built from, and the registry address once it
/// is known.
#[derive(Debug)]
pub struct Image {
    pub application_id: String,
    pub name: String,
    pub tag: String,
    pub commit_id: String,
    pub registry_url: Option<String>,
}

impl Clone for Image {
    fn clone(&self) -> (r: Self)
        ensures
            r == *self,
    {
        Image {
            application_id: self.application_id.clone(),
            name: self.name.clone(),
            tag: self.tag.clone(),
            commit_id: self.commit_id.clone(),
            registry_url: match &self.registry_url {
                Some(s) => Some(s.clone()),
                None => None,
            },
        }
    }
}

impl Image {
    /// The name and the tag, with a colon between them.
    pub open spec fn spec_name_with_tag(&self) -> Seq<char> {
        self.name@ + ":"@ + self.tag@
    }

    pub fn name_with_tag(&self) -> (r: String)
        ensures
            r@ == self.spec_name_with_tag(),
    {
        concat3(self.name.as_str(), ":", self.tag.as_str())
    }

    /// The name with the tag `latest`.
    pub open spec fn spec_name_with_latest_tag(&self) -> Seq<char> {
        self.name@ + ":latest"@
    }

    pub fn name_with_latest_tag(&self) -> (r: String)
        ensures
            r@ == self.spec_name_with_latest_tag(),
    {
        let mut out = self.name.clone();
        out.append(":latest");
        out
    }

    /// The same image, known to lie at `registry_url`.
    pub fn located_at(&self, registry_url: String) -> (r: Image)
        ensures
            r == (Image { registry_url: Some(registry_url), ..*self }),
    {
        Image {
            application_id: self.application_id.clone(),
            name: self.name.clone(),
            tag: self.tag.clone(),
            commit_id: self.commit_id.clone(),
            registry_url: Some(registry_url),
        }
    }
}

/// A login and a password.
#[derive(Debug)]
pub struct Credentials {
    pub login: String,
    pub password: String,
}

/// An SSH key, with its passphrase and public key where it has them.
#[derive(Debug)]
pub struct SshKey {
    pub private_key: String,
    pub passphrase: Option<String>,
    pub public_key: Option<String>,
}

/// Where the sources of a build come from.
#[derive(Debug)]
pub struct GitRepository {
    pub url: String,
    pub credentials: Option<Credentials>,
    pub ssh_keys: Vec<SshKey>,
    pub commit_id: String,
    /// The Dockerfile, relative to `root_path`; none means a buildpack build.
    pub dockerfile_path: Option<String>,
    /// The directory of the application within the repository.
    pub root_path: String,
    /// The buildpack to use, as `builder[@version]`.
    pub buildpack_language: Option<String>,
}

/// A way to log in to the host of a repository.
#[derive(Clone, Copy, Debug, PartialEq, Eq, Structural)]
pub enum CloneCredential {
    /// The SSH key at this position among the keys of the repository.
    SshKey(usize),
    /// The login and the password of the repository.
    LoginPassword,
}

impl GitRepository {
    /// The ways to log in, in the order in which they are tried: the SSH keys
    /// in the order in which they are given, then the login and the password,
    /// where the repository has them.
    pub open spec fn spec_credential_order(&self) -> Seq<CloneCredential> {
        Seq::new(self.ssh_keys@.len(), |i: int| CloneCredential::SshKey(i as usize)) + (
        if self.credentials is Some {
            seq![CloneCredential::LoginPassword]
        } else {
            Seq::empty()
        })
    }

    /// The ways to log in to the host of the repository, in the order in
    /// which they are tried.
    pub fn credential_order(&self) -> (r: Vec<CloneCredential>)
        ensures
            r@ == self.spec_credential_order(),
    {
        let mut out: Vec<CloneCredential> = Vec::new();
        let n: usize = self.ssh_keys.len();
        let mut i: usize = 0;
        while i < n
            invariant
                i <= n == self.ssh_keys.len(),
                out@ == Seq::new(i as nat, |k: int| CloneCredential::SshKey(k as usize)),
            decreases n - i,
        {
            out.push(CloneCredential::SshKey(i));
            i = i + 1;
            assert(out@ =~= Seq::new(i as nat, |k: int| CloneCredential::SshKey(k as usize)));
        }
        if self.credentials.is_some() {
            out.push(CloneCredential::LoginPassword);
        }
        assert(out@ =~= self.spec_credential_order());
        out
    }
}

/// A variable of the environment of a build.
#[derive(Debug)]
pub struct EnvironmentVariable {
    pub key: String,
    pub value: String,
}

/// The options of a build.
#[derive(Debug)]
pub struct BuildOptions {
    pub environment_variables: Vec<EnvironmentVariable>,
}

/// One request to build an image from a commit.
#[derive(Debug)]
pub struct Build {
    pub git_repository: GitRepository,
    pub image: Image,
    pub options: BuildOptions,
}

impl Build {
    /// The build of the commit before: the same sources and the same image,
    /// at the commit `parent_commit_id`, which is also the tag of its image.
    pub open spec fn spec_to_previous_build(self, parent_commit_id: String) -> Build {
        Build {
            git_repository: GitRepository { commit_id: parent_commit_id, ..self.git_repository },
            image: Image { tag: parent_commit_id, commit_id: parent_commit_id, ..self.image },
            options: self.options,
        }
    }

    /// The build of the commit before this one.
    pub fn to_previous_build(self, parent_commit_id: String) -> (r: Build)
        ensures
            r == self.spec_to_previous_build(parent_commit_id),
    {
        let tag = parent_commit_id.clone();
        let commit_id = parent_commit_id.clone();
        Build {
            git_repository: GitRepository {
                url: self.git_repository.url,
                credentials: self.git_repository.credentials,
                ssh_keys: self.git_repository.ssh_keys,
                commit_id: parent_commit_id,
                dockerfile_path: self.git_repository.dockerfile_path,
                root_path: self.git_repository.root_path,
                buildpack_language: self.git_repository.buildpack_language,
            },
            image: Image {
                application_id: self.image.application_id,
                name: self.image.name,
                tag,
                commit_id,
                registry_url: self.image.registry_url,
            },
            options: self.options,
        }
    }
}

/// A build that was made, or found to be made already.
#[derive(Debug)]
pub struct BuildResult {
    pub build: Build,
}

/// What a look into the build cache found.
#[derive(Debug)]
pub enum CacheResult {
    /// The layers of the earlier build are here: the build can be skipped.
    Hit,
    /// There is an earlier build, but its layers are not here.
    Miss(Build),
    /// There is no earlier build.
    MissWithoutParentBuild,
}

} // verus!
