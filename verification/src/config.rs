use vstd::prelude::*;

verus! {

/// Mathematical model of the system sub-record: the refresh interval,
/// in whole seconds.
pub ghost struct SystemView {
    pub duration_secs: u64,
}

/// Mathematical model of the search sub-record: each named parameter as a
/// character sequence. An empty sequence means the parameter is omitted
/// from the remote query.
#[verifier::ext_equal]
pub ghost struct SearchView {
    pub query: Seq<char>,
    pub categories: Seq<char>,
    pub purity: Seq<char>,
    pub sorting: Seq<char>,
    pub order: Seq<char>,
    pub top_range: Seq<char>,
    pub at_least: Seq<char>,
    pub resolutions: Seq<char>,
    pub ratios: Seq<char>,
    pub colors: Seq<char>,
    pub api_key: Seq<char>,
}

/// Mathematical model of a whole configuration snapshot.
#[verifier::ext_equal]
pub ghost struct ConfigView {
    pub system: SystemView,
    pub search: SearchView,
}

/// The system sub-record of a configuration: how often the wallpaper is
/// refreshed.
pub struct System {
    pub duration_secs: u64,
}

/// The search sub-record of a configuration: the optional string parameters
/// of the remote image search. An empty string means "parameter omitted".
pub struct Search {
    pub query: String,
    pub categories: String,
    pub purity: String,
    pub sorting: String,
    pub order: String,
    pub top_range: String,
    pub at_least: String,
    pub resolutions: String,
    pub ratios: String,
    pub colors: String,
    pub api_key: String,
}

/// A configuration snapshot: system and search sub-records together.
pub struct Config {
    pub system: System,
    pub search: Search,
}

impl View for System {
    type V = SystemView;

    open spec fn view(&self) -> SystemView {
        SystemView { duration_secs: self.duration_secs }
    }
}

impl View for Search {
    type V = SearchView;

    open spec fn view(&self) -> SearchView {
        SearchView {
            query: self.query@,
            categories: self.categories@,
            purity: self.purity@,
            sorting: self.sorting@,
            order: self.order@,
            top_range: self.top_range@,
            at_least: self.at_least@,
            resolutions: self.resolutions@,
            ratios: self.ratios@,
            colors: self.colors@,
            api_key: self.api_key@,
        }
    }
}

impl View for Config {
    type V = ConfigView;

    open spec fn view(&self) -> ConfigView {
        ConfigView { system: self.system@, search: self.search@ }
    }
}

impl System {
    /// Structural equality of system sub-records.
    pub fn eq_fields(&self, other: &System) -> (r: bool)
        ensures
            r == (self@ == other@),
    {
        self.duration_secs == other.duration_secs
    }
}

impl Search {
    /// Structural equality of search sub-records: every parameter compares
    /// equal as a character sequence.
    pub fn eq_fields(&self, other: &Search) -> (r: bool)
        ensures
            r == (self@ == other@),
    {
        if self.query == other.query && self.categories == other.categories
            && self.purity == other.purity && self.sorting == other.sorting
            && self.order == other.order && self.top_range == other.top_range
            && self.at_least == other.at_least && self.resolutions == other.resolutions
            && self.ratios == other.ratios && self.colors == other.colors
            && self.api_key == other.api_key {
            proof {
                assert(self@ =~= other@);
            }
            true
        } else {
            false
        }
    }
}

impl Config {
    /// Structural equality of configuration snapshots, used to detect that
    /// the on-disk configuration differs from the one held in memory.
    pub fn eq_fields(&self, other: &Config) -> (r: bool)
        ensures
            r == (self@ == other@),
    {
        if self.system.eq_fields(&other.system) && self.search.eq_fields(&other.search) {
            proof {
                assert(self@ =~= other@);
            }
            true
        } else {
            false
        }
    }
}

/// The default refresh interval: one hour.
pub open spec fn default_system() -> SystemView {
    SystemView { duration_secs: 3600 }
}

/// The documented default search parameters, written to disk on first run.
pub open spec fn default_search() -> SearchView {
    SearchView {
        query: "+landscape +mountain"@,
        categories: "111"@,
        purity: "100"@,
        sorting: "date_added"@,
        order: "desc"@,
        top_range: "1M"@,
        at_least: "1920x1080"@,
        resolutions: ""@,
        ratios: ""@,
        colors: ""@,
        api_key: ""@,
    }
}

/// The default configuration snapshot.
pub open spec fn default_config() -> ConfigView {
    ConfigView { system: default_system(), search: default_search() }
}

impl Default for System {
    fn default() -> (s: Self)
        ensures
            s@ == default_system(),
    {
        System { duration_secs: 3600 }
    }
}

impl Default for Search {
    fn default() -> (s: Self)
        ensures
            s@ == default_search(),
    {
        let s = Search {
            query: "+landscape +mountain".to_owned(),
            categories: "111".to_owned(),
            purity: "100".to_owned(),
            sorting: "date_added".to_owned(),
            order: "desc".to_owned(),
            top_range: "1M".to_owned(),
            at_least: "1920x1080".to_owned(),
            resolutions: "".to_owned(),
            ratios: "".to_owned(),
            colors: "".to_owned(),
            api_key: "".to_owned(),
        };
        proof {
            assert(s@ =~= default_search());
        }
        s
    }
}

impl Default for Config {
    fn default() -> (c: Self)
        ensures
            c@ == default_config(),
    {
        let c = Config { system: System::default(), search: Search::default() };
        proof {
            assert(c@ =~= default_config());
        }
        c
    }
}

/// Change detection is exactly structural inequality of the two snapshots'
/// models: identical snapshots compare equal, and snapshots that differ in
/// the system record or in any single search parameter compare unequal.
pub proof fn lemma_change_detection(a: Config, b: Config)
    ensures
        (a@ == b@) <==> (a@.system == b@.system && a@.search == b@.search),
        a@.search != b@.search ==> a@ != b@,
        a@.system != b@.system ==> a@ != b@,
{
    if a@.system == b@.system && a@.search == b@.search {
        assert(a@ =~= b@);
    }
}

} // verus!
