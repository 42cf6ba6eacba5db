//! Changes to the settings: the command-line surface sets single fields.
use crate::clock::{clock_of, ClockTime};
use crate::model::AppConfig;
use crate::text::{same_text, views};
use vstd::prelude::*;

verus! {

/// The fields that one change sets; `None` leaves a field as it is.
pub struct ConfigUpdate {
    pub api_key: Option<String>,
    /// A repository to add, unless it is listed already.
    pub add_repo: Option<String>,
    pub deep_analysis: Option<bool>,
    pub feishu_app_id: Option<String>,
    pub feishu_app_secret: Option<String>,
    pub feishu_target: Option<String>,
    /// A daily delivery time, `HH:MM`; setting one enables delivery.
    pub schedule: Option<String>,
}

pub open spec fn or_keep<T>(new: Option<T>, old: T) -> T {
    match new {
        Some(v) => v,
        None => old,
    }
}

pub open spec fn or_keep_some<T>(new: Option<T>, old: Option<T>) -> Option<T> {
    match new {
        Some(v) => Some(v),
        None => old,
    }
}

/// The update would add a repository that is not listed yet.
pub open spec fn adds_repo(old: AppConfig, u: ConfigUpdate) -> bool {
    u.add_repo matches Some(p) && !views(old.git_paths@).contains(p@)
}

/// The update asks for a schedule time that is no `HH:MM` time of day.
pub open spec fn bad_schedule(u: ConfigUpdate) -> bool {
    u.schedule matches Some(t) && clock_of(t@) is None
}

/// `new` is `old` with the update's fields set.
pub open spec fn updated(old: AppConfig, u: ConfigUpdate, new: AppConfig) -> bool {
    &&& new.api_key == or_keep(u.api_key, old.api_key)
    &&& views(new.git_paths@) == if adds_repo(old, u) {
        views(old.git_paths@).push(u.add_repo->0@)
    } else {
        views(old.git_paths@)
    }
    &&& new.deep_analysis == or_keep(u.deep_analysis, old.deep_analysis)
    &&& new.feishu_app_id == or_keep_some(u.feishu_app_id, old.feishu_app_id)
    &&& new.feishu_app_secret == or_keep_some(u.feishu_app_secret, old.feishu_app_secret)
    &&& new.feishu_target_email == or_keep_some(u.feishu_target, old.feishu_target_email)
    &&& new.schedule_time == or_keep_some(u.schedule, old.schedule_time)
    &&& new.feishu_enabled == (u.schedule is Some || old.feishu_enabled)
    &&& new.provider == old.provider
    &&& new.model == old.model
    &&& new.base_url == old.base_url
    &&& new.custom_rules == old.custom_rules
    &&& new.report_template == old.report_template
}

/// Whether the update changes anything.
pub open spec fn changes(old: AppConfig, u: ConfigUpdate) -> bool {
    u.api_key is Some || adds_repo(old, u) || u.deep_analysis is Some || u.feishu_app_id is Some
        || u.feishu_app_secret is Some || u.feishu_target is Some || u.schedule is Some
}

impl AppConfig {
    /// Whether `path` is among the repositories.
    pub fn has_repo(&self, path: &str) -> (r: bool)
        ensures
            r == views(self.git_paths@).contains(path@),
    {
        let mut i: usize = 0;
        while i < self.git_paths.len()
            invariant
                i <= self.git_paths.len(),
                forall|k: int| 0 <= k < i ==> self.git_paths@[k]@ != path@,
            decreases self.git_paths.len() - i,
        {
            if same_text(self.git_paths[i].as_str(), path) {
                assert(views(self.git_paths@)[i as int] == path@);
                return true;
            }
            i += 1;
        }
        proof {
            if views(self.git_paths@).contains(path@) {
                let k = choose|k: int|
                    0 <= k < views(self.git_paths@).len() && views(self.git_paths@)[k] == path@;
                assert(self.git_paths@[k]@ == path@);
            }
        }
        false
    }

    /// Applies a change. A schedule time that is no `HH:MM` time of day is
    /// refused, and the settings stay as they were; else the result says
    /// whether anything changed.
    pub fn apply_update(&mut self, u: ConfigUpdate) -> (r: Result<bool, String>)
        ensures
            bad_schedule(u) ==> *final(self) == *old(self) && (r matches Err(e) && e@
                == "Invalid schedule time (expected HH:MM): "@ + u.schedule->0@),
            !bad_schedule(u) ==> updated(*old(self), u, *final(self)) && r == Ok::<bool, String>(
                changes(*old(self), u),
            ),
    {
        let ghost u0 = u;
        if let Some(t) = &u.schedule {
            if ClockTime::parse(t.as_str()).is_none() {
                let mut e = String::from_str("Invalid schedule time (expected HH:MM): ");
                e.append(t.as_str());
                return Err(e);
            }
        }
        let adds = match &u.add_repo {
            Some(p) => !self.has_repo(p.as_str()),
            None => false,
        };
        let changed = u.api_key.is_some() || adds || u.deep_analysis.is_some()
            || u.feishu_app_id.is_some() || u.feishu_app_secret.is_some()
            || u.feishu_target.is_some() || u.schedule.is_some();
        if let Some(k) = u.api_key {
            self.api_key = k;
        }
        if let Some(p) = u.add_repo {
            if adds {
                let ghost before = self.git_paths@;
                self.git_paths.push(p);
                assert(views(self.git_paths@) =~= views(before).push(u0.add_repo->0@));
            }
        }
        if let Some(d) = u.deep_analysis {
            self.deep_analysis = d;
        }
        if let Some(id) = u.feishu_app_id {
            self.feishu_app_id = Some(id);
        }
        if let Some(secret) = u.feishu_app_secret {
            self.feishu_app_secret = Some(secret);
        }
        if let Some(target) = u.feishu_target {
            self.feishu_target_email = Some(target);
        }
        if let Some(time) = u.schedule {
            self.schedule_time = Some(time);
            self.feishu_enabled = true;
        }
        Ok(changed)
    }
}

} // verus!
