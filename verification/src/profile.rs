//! Profiles: the per-bot-account configuration — its channels, client
//! credentials per platform, and access rights — plus the named collection of
//! profiles and the paths configuration is kept under. Reading and writing
//! the files stays with the embedding layer, which also supplies the
//! configuration directory explicitly; nothing here reads ambient state.

use vstd::prelude::*;

use crate::auth::Credentials;
use crate::auth::Platform;
use crate::command_access::spec_default_rights;
use crate::command_access::AccessRights;

verus! {

/// Why a profile operation failed.
#[derive(Debug, PartialEq, Eq)]
pub enum ProfileError {
    /// A profile of this name already exists.
    AlreadyExists(String),
    /// The embedding layer could not read or write a profile file.
    Io(String),
    /// A profile file does not parse.
    Json(String),
}

/// The credentials stored for a platform: the value beside the first entry
/// carrying that platform, if any.
pub open spec fn spec_cred_lookup(
    creds: Seq<(Platform, Credentials)>,
    platform: Platform,
) -> Option<Credentials>
    decreases creds.len(),
{
    if creds.len() == 0 {
        Option::None
    } else if creds[0].0 == platform {
        Option::Some(creds[0].1)
    } else {
        spec_cred_lookup(creds.skip(1), platform)
    }
}

/// One bot account's configuration: the profile's name, the channels it may
/// join, one set of credentials per platform, the client it authenticates
/// as, and the access rights gating its commands.
#[derive(Debug)]
pub struct Profile {
    pub name: String,
    pub channels: Vec<String>,
    pub credentials: Vec<(Platform, Credentials)>,
    pub client_id: String,
    pub client_secret: Option<String>,
    pub rights: AccessRights,
}

impl Profile {
    /// Each platform holds at most one set of credentials.
    pub open spec fn wf(&self) -> bool {
        forall|i: int, j: int|
            0 <= i < j < self.credentials@.len() ==> (#[trigger] self.credentials@[i]).0 != (
            #[trigger] self.credentials@[j]).0
    }

    /// A fresh profile with no credentials and the default access rights.
    pub fn new(
        name: String,
        channels: Vec<String>,
        client_id: String,
        client_secret: Option<String>,
    ) -> (r: Profile)
        ensures
            r.name@ == name@,
            r.channels.deep_view() == channels.deep_view(),
            r.credentials@ == Seq::<(Platform, Credentials)>::empty(),
            r.client_id@ == client_id@,
            r.client_secret.deep_view() == client_secret.deep_view(),
            spec_default_rights(r.rights.filters@),
            r.wf(),
    {
        let r = Profile {
            name,
            channels,
            credentials: Vec::new(),
            client_id,
            client_secret,
            rights: AccessRights::new(),
        };
        proof {
            assert(r.credentials@ =~= Seq::<(Platform, Credentials)>::empty());
        }
        r
    }

    /// The channels the profile may join.
    pub fn get_channels(&self) -> (r: &Vec<String>)
        ensures
            r.deep_view() == self.channels.deep_view(),
    {
        &self.channels
    }

    /// The client id the profile authenticates as.
    pub fn get_client_id(&self) -> (r: String)
        ensures
            r@ == self.client_id@,
    {
        self.client_id.clone()
    }

    /// The client secret, if the profile holds one.
    pub fn get_client_secret(&self) -> (r: Option<String>)
        ensures
            r.deep_view() == self.client_secret.deep_view(),
    {
        match &self.client_secret {
            Option::Some(s) => Option::Some(s.clone()),
            Option::None => Option::None,
        }
    }

    /// Appends channels to the profile, after the ones it already has.
    pub fn add_channels(&mut self, channels: Vec<String>)
        ensures
            final(self).channels.deep_view() == old(self).channels.deep_view()
                + channels.deep_view(),
            final(self).name == old(self).name,
            final(self).credentials == old(self).credentials,
            final(self).client_id == old(self).client_id,
            final(self).client_secret == old(self).client_secret,
            final(self).rights == old(self).rights,
    {
        let ghost pre = self.channels.deep_view();
        let ghost added = channels.deep_view();
        let mut more = channels;
        self.channels.append(&mut more);
        proof {
            assert(self.channels.deep_view() =~~= pre + added);
        }
    }

    /// Stores credentials for a platform, replacing any it already holds
    /// for that platform and leaving every other platform's untouched.
    pub fn set_credentials(&mut self, platform: Platform, creds: Credentials)
        requires
            old(self).wf(),
        ensures
            final(self).wf(),
            spec_cred_lookup(final(self).credentials@, platform) == Option::Some(creds),
            forall|q: Platform|
                q != platform ==> #[trigger] spec_cred_lookup(final(self).credentials@, q)
                    == spec_cred_lookup(old(self).credentials@, q),
            final(self).name == old(self).name,
            final(self).channels == old(self).channels,
            final(self).client_id == old(self).client_id,
            final(self).client_secret == old(self).client_secret,
            final(self).rights == old(self).rights,
    {
        let ghost pre = self.credentials@;
        let mut i: usize = 0;
        while i < self.credentials.len()
            invariant
                pre == self.credentials@,
                pre == old(self).credentials@,
                old(self).wf(),
                self.name == old(self).name,
                self.channels == old(self).channels,
                self.client_id == old(self).client_id,
                self.client_secret == old(self).client_secret,
                self.rights == old(self).rights,
                0 <= i <= pre.len(),
                forall|j: int| 0 <= j < i ==> (#[trigger] pre[j]).0 != platform,
            decreases pre.len() - i,
        {
            if self.credentials[i].0 == platform {
                self.credentials[i] = (platform, creds);
                proof {
                    assert(self.credentials@ == pre.update(i as int, (platform, creds)));
                    lemma_cred_lookup_update(pre, self.credentials@, platform, creds, i as int);
                    assert forall|a: int, b: int|
                        0 <= a < b < self.credentials@.len() implies (
                        #[trigger] self.credentials@[a]).0 != (
                        #[trigger] self.credentials@[b]).0 by {
                        assert((self.credentials@[a]).0 == (pre[a]).0);
                        assert((self.credentials@[b]).0 == (pre[b]).0);
                    }
                }
                return ;
            }
            i += 1;
        }
        self.credentials.push((platform, creds));
        proof {
            lemma_cred_lookup_push(pre, platform, creds);
        }
    }

    /// The credentials stored for a platform, if any.
    pub fn get_credentials(&self, platform: &Platform) -> (r: Option<&Credentials>)
        ensures
            match r {
                Option::Some(c) => spec_cred_lookup(self.credentials@, *platform)
                    == Option::Some(*c),
                Option::None => spec_cred_lookup(self.credentials@, *platform) is None,
            },
    {
        let ghost creds = self.credentials@;
        let mut i: usize = 0;
        proof {
            assert(creds.skip(0) =~= creds);
        }
        while i < self.credentials.len()
            invariant
                creds == self.credentials@,
                0 <= i <= creds.len(),
                spec_cred_lookup(creds, *platform) == spec_cred_lookup(
                    creds.skip(i as int),
                    *platform,
                ),
            decreases creds.len() - i,
        {
            proof {
                assert(creds.skip(i as int)[0] == creds[i as int]);
                assert(creds.skip(i as int).skip(1) =~= creds.skip(i + 1));
            }
            if self.credentials[i].0 == *platform {
                return Option::Some(&self.credentials[i].1);
            }
            i += 1;
        }
        proof {
            assert(creds.skip(creds.len() as int) =~= Seq::<(Platform, Credentials)>::empty());
        }
        Option::None
    }

    /// The access rights gating the profile's commands.
    pub fn rights(&self) -> (r: &AccessRights)
        ensures
            r.filters@ == self.rights.filters@,
    {
        &self.rights
    }

    /// Where this profile's configuration lives: its own directory, named
    /// after the profile, under the profiles directory.
    pub fn path(&self, configs: &Configs) -> (r: String)
        ensures
            r@ == configs.cfg_dir@ + "/profiles"@ + "/"@ + self.name@,
    {
        let mut r = configs.profiles_dir();
        r.append("/");
        r.append(self.name.as_str());
        proof {
            assert(r@ =~= configs.cfg_dir@ + "/profiles"@ + "/"@ + self.name@);
        }
        r
    }

    /// Where this profile's plugins live: the `plugins` directory inside the
    /// profile's own.
    pub fn plugins_path(&self, configs: &Configs) -> (r: String)
        ensures
            r@ == configs.cfg_dir@ + "/profiles"@ + "/"@ + self.name@ + "/plugins"@,
    {
        let mut r = self.path(configs);
        r.append("/plugins");
        proof {
            assert(r@ =~= configs.cfg_dir@ + "/profiles"@ + "/"@ + self.name@ + "/plugins"@);
        }
        r
    }
}

/// After replacing the entry at `at`, the lookup answers the new credentials
/// for its platform and is unchanged for every other.
proof fn lemma_cred_lookup_update(
    pre: Seq<(Platform, Credentials)>,
    post: Seq<(Platform, Credentials)>,
    platform: Platform,
    creds: Credentials,
    at: int,
)
    requires
        0 <= at < pre.len(),
        post == pre.update(at, (platform, creds)),
        pre[at].0 == platform,
        forall|j: int| 0 <= j < at ==> (#[trigger] pre[j]).0 != platform,
    ensures
        spec_cred_lookup(post, platform) == Option::Some(creds),
        forall|q: Platform|
            q != platform ==> #[trigger] spec_cred_lookup(post, q) == spec_cred_lookup(pre, q),
    decreases at,
{
    if at == 0 {
        assert(post[0] == (platform, creds));
        assert(post.skip(1) =~= pre.skip(1));
    } else {
        assert(post[0] == pre[0]);
        lemma_cred_lookup_update(pre.skip(1), post.skip(1), platform, creds, at - 1);
        assert(pre.skip(1).update(at - 1, (platform, creds)) =~= post.skip(1));
        assert(forall|j: int|
            0 <= j < at - 1 ==> (#[trigger] pre.skip(1)[j]).0 == pre[j + 1].0);
    }
}

/// After pushing an entry for a platform the list did not hold, the lookup
/// answers the new credentials for it and is unchanged for every other.
proof fn lemma_cred_lookup_push(
    pre: Seq<(Platform, Credentials)>,
    platform: Platform,
    creds: Credentials,
)
    requires
        forall|j: int| 0 <= j < pre.len() ==> (#[trigger] pre[j]).0 != platform,
    ensures
        spec_cred_lookup(pre.push((platform, creds)), platform) == Option::Some(creds),
        forall|q: Platform|
            q != platform ==> #[trigger] spec_cred_lookup(pre.push((platform, creds)), q)
                == spec_cred_lookup(pre, q),
    decreases pre.len(),
{
    if pre.len() == 0 {
        assert(pre.push((platform, creds))[0] == (platform, creds));
        assert(forall|q: Platform|
            q != platform ==> #[trigger] spec_cred_lookup(pre.push((platform, creds)), q)
                == spec_cred_lookup(pre.push((platform, creds)).skip(1), q));
        assert(pre.push((platform, creds)).skip(1) =~= pre);
    } else {
        lemma_cred_lookup_push(pre.skip(1), platform, creds);
        assert(pre.push((platform, creds)).skip(1) =~= pre.skip(1).push((platform, creds)));
        assert(pre.push((platform, creds))[0] == pre[0]);
    }
}

/// The profile stored under a name: the one beside the first entry carrying
/// that name, if any.
pub open spec fn spec_profile_names(profiles: Seq<(String, Profile)>) -> Seq<Seq<char>> {
    profiles.map_values(|e: (String, Profile)| e.0@)
}

/// The named collection of profiles.
#[derive(Debug)]
pub struct Profiles {
    pub profiles: Vec<(String, Profile)>,
}

impl Profiles {
    /// Each name holds at most one profile.
    pub open spec fn wf(&self) -> bool {
        forall|i: int, j: int|
            0 <= i < j < self.profiles@.len() ==> (#[trigger] self.profiles@[i]).0@ != (
            #[trigger] self.profiles@[j]).0@
    }

    /// Whether some entry carries this name.
    pub open spec fn spec_has(&self, name: Seq<char>) -> bool {
        exists|i: int| 0 <= i < self.profiles@.len() && (#[trigger] self.profiles@[i]).0@ == name
    }

    /// An empty collection.
    pub fn new() -> (r: Profiles)
        ensures
            r.profiles@ == Seq::<(String, Profile)>::empty(),
            r.wf(),
    {
        let r = Profiles { profiles: Vec::new() };
        proof {
            assert(r.profiles@ =~= Seq::<(String, Profile)>::empty());
        }
        r
    }

    /// Whether a profile of this name is stored.
    pub fn has(&self, name: &str) -> (r: bool)
        ensures
            r == self.spec_has(name@),
    {
        let mut i: usize = 0;
        while i < self.profiles.len()
            invariant
                0 <= i <= self.profiles@.len(),
                forall|j: int| 0 <= j < i ==> (#[trigger] self.profiles@[j]).0@ != name@,
            decreases self.profiles@.len() - i,
        {
            if crate::text::str_eq(self.profiles[i].0.as_str(), name) {
                return true;
            }
            i += 1;
        }
        false
    }

    /// Stores a profile under its own name; a name already taken is refused
    /// and nothing changes.
    pub fn add(&mut self, profile: Profile) -> (r: Result<(), ProfileError>)
        requires
            old(self).wf(),
        ensures
            final(self).wf(),
            old(self).spec_has(profile.name@) ==> (r matches Err(e) && e
                == ProfileError::AlreadyExists(profile.name) && final(self).profiles@ == old(
                self,
            ).profiles@),
            !old(self).spec_has(profile.name@) ==> (r is Ok && final(self).profiles@ == old(
                self,
            ).profiles@.push((profile.name, profile))),
    {
        if self.has(profile.name.as_str()) {
            return Result::Err(ProfileError::AlreadyExists(profile.name));
        }
        let name = profile.name.clone();
        let ghost pre = self.profiles@;
        self.profiles.push((name, profile));
        proof {
            assert(self.profiles@ =~= pre.push(
                (self.profiles@[pre.len() as int].0, self.profiles@[pre.len() as int].1),
            ));
        }
        Result::Ok(())
    }

    /// The profile stored under this name, if any.
    pub fn get(&self, name: &str) -> (r: Option<&Profile>)
        ensures
            r is Some <==> self.spec_has(name@),
            r matches Some(p) ==> exists|i: int|
                0 <= i < self.profiles@.len() && (#[trigger] self.profiles@[i]).0@ == name@
                    && self.profiles@[i].1 == *p,
    {
        let mut i: usize = 0;
        while i < self.profiles.len()
            invariant
                0 <= i <= self.profiles@.len(),
                forall|j: int| 0 <= j < i ==> (#[trigger] self.profiles@[j]).0@ != name@,
            decreases self.profiles@.len() - i,
        {
            if crate::text::str_eq(self.profiles[i].0.as_str(), name) {
                return Option::Some(&self.profiles[i].1);
            }
            i += 1;
        }
        Option::None
    }

    /// Forgets the profile stored under this name, if any: what remains is
    /// the old sequence with exactly that entry removed, in order. Removing
    /// the profile's files stays with the caller.
    pub fn delete(&mut self, name: &str) -> (r: Result<(), ProfileError>)
        requires
            old(self).wf(),
        ensures
            final(self).wf(),
            r is Ok,
            !final(self).spec_has(name@),
            forall|q: Seq<char>|
                q != name@ ==> (#[trigger] final(self).spec_has(q)) == old(self).spec_has(q),
            old(self).spec_has(name@) ==> exists|i: int|
                0 <= i < old(self).profiles@.len() && (#[trigger] old(self).profiles@[i]).0@
                    == name@ && final(self).profiles@ == old(self).profiles@.remove(i),
            !old(self).spec_has(name@) ==> final(self).profiles@ == old(self).profiles@,
    {
        let ghost pre = self.profiles@;
        let mut i: usize = 0;
        while i < self.profiles.len()
            invariant
                pre == self.profiles@,
                pre == old(self).profiles@,
                old(self).wf(),
                0 <= i <= pre.len(),
                forall|j: int| 0 <= j < i ==> (#[trigger] pre[j]).0@ != name@,
            decreases pre.len() - i,
        {
            if crate::text::str_eq(self.profiles[i].0.as_str(), name) {
                self.profiles.remove(i);
                proof {
                    assert(self.profiles@ =~= pre.remove(i as int));
                    assert(0 <= i < old(self).profiles@.len() && (#[trigger] old(
                        self,
                    ).profiles@[i as int]).0@ == name@ && self.profiles@ == old(
                        self,
                    ).profiles@.remove(i as int));
                    assert forall|q: Seq<char>| q != name@ implies (#[trigger] self.spec_has(q))
                        == old(self).spec_has(q) by {
                        lemma_has_remove(pre, i as int, q);
                    }
                    assert forall|k: int|
                        0 <= k < self.profiles@.len() implies (#[trigger] self.profiles@[k]).0@
                        != name@ by {
                        if k < i {
                            assert(self.profiles@[k] == pre[k]);
                        } else {
                            assert(self.profiles@[k] == pre[k + 1]);
                        }
                    }
                }
                return Result::Ok(());
            }
            i += 1;
        }
        Result::Ok(())
    }

    /// The stored profiles with their names, in insertion order.
    pub fn iter(&self) -> (r: &Vec<(String, Profile)>)
        ensures
            r@ == self.profiles@,
    {
        &self.profiles
    }
}

/// Removing one entry keeps every other name's presence unchanged.
proof fn lemma_has_remove(pre: Seq<(String, Profile)>, at: int, q: Seq<char>)
    requires
        0 <= at < pre.len(),
    ensures
        (exists|i: int| 0 <= i < pre.remove(at).len() && (#[trigger] pre.remove(at)[i]).0@ == q)
            ==> (exists|i: int| 0 <= i < pre.len() && (#[trigger] pre[i]).0@ == q),
        (exists|i: int| 0 <= i < pre.len() && i != at && (#[trigger] pre[i]).0@ == q) ==> (
        exists|i: int| 0 <= i < pre.remove(at).len() && (#[trigger] pre.remove(at)[i]).0@ == q),
{
    if exists|i: int| 0 <= i < pre.remove(at).len() && (#[trigger] pre.remove(at)[i]).0@ == q {
        let i = choose|i: int|
            0 <= i < pre.remove(at).len() && (#[trigger] pre.remove(at)[i]).0@ == q;
        if i < at {
            assert(pre[i].0@ == q);
        } else {
            assert(pre[i + 1].0@ == q);
        }
    }
    if exists|i: int| 0 <= i < pre.len() && i != at && (#[trigger] pre[i]).0@ == q {
        let i = choose|i: int| 0 <= i < pre.len() && i != at && (#[trigger] pre[i]).0@ == q;
        if i < at {
            assert(pre.remove(at)[i].0@ == q);
        } else {
            assert(pre.remove(at)[i - 1].0@ == q);
        }
    }
}

/// Where configuration lives. The directory is handed in by construction —
/// never read from ambient process state.
#[derive(Debug, PartialEq, Eq)]
pub struct Configs {
    pub cfg_dir: String,
}

impl Configs {
    /// Configuration rooted at the given directory.
    pub fn new(cfg_dir: String) -> (r: Configs)
        ensures
            r.cfg_dir@ == cfg_dir@,
    {
        Configs { cfg_dir }
    }

    /// Where the profiles live.
    pub fn profiles_dir(&self) -> (r: String)
        ensures
            r@ == self.cfg_dir@ + "/profiles"@,
    {
        let mut r = self.cfg_dir.clone();
        r.append("/profiles");
        r
    }

    /// Where the log is written.
    pub fn log_path(&self) -> (r: String)
        ensures
            r@ == self.cfg_dir@ + "/log"@,
    {
        let mut r = self.cfg_dir.clone();
        r.append("/log");
        r
    }

    /// Where usage statistics are written.
    pub fn stats_path(&self) -> (r: String)
        ensures
            r@ == self.cfg_dir@ + "/stats"@,
    {
        let mut r = self.cfg_dir.clone();
        r.append("/stats");
        r
    }
}

} // verus!
