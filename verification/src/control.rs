use vstd::prelude::*;
use crate::config::Config;
use crate::query::{build_request_url, request_url};
use crate::response::ResultPage;
use crate::rng::{fresh_rng, random_below};

verus! {

/// An external trigger, consumed exactly once by the control loop.
#[derive(PartialEq, Eq, Structural, Clone, Copy, Debug)]
pub enum Event {
    /// The timer fired, or the user asked for a new wallpaper.
    RefreshWallpaper,
    /// The user asked to edit the configuration.
    OpenConfig,
    /// The user asked to leave.
    Quit,
}

/// What the host must do in answer to one event. The host performs the
/// outside work (network, files, the wallpaper call) and owns nothing of the
/// decision.
#[derive(PartialEq, Eq, Structural, Clone, Copy, Debug)]
pub enum Directive {
    /// Run one refresh cycle.
    StartCycle,
    /// Open the configuration file in an editor, detached.
    OpenEditor,
    /// Terminate the loop; no event is handled after this one.
    Stop,
}

/// The directive each event maps to.
pub open spec fn directive_for(e: Event) -> Directive {
    match e {
        Event::RefreshWallpaper => Directive::StartCycle,
        Event::OpenConfig => Directive::OpenEditor,
        Event::Quit => Directive::Stop,
    }
}

/// The cached result page: the image references fetched last, and the page
/// count the remote API reported for the current query. The count 1 is a
/// sentinel that also stands for "not yet resolved": under it the next
/// request asks for the default page and resolves the count.
pub struct List {
    pub content: Vec<String>,
    pub pages: u64,
}

/// The state the control loop owns: the configuration in memory, the cached
/// result page, and whether the loop is still running.
pub struct App {
    pub config: Config,
    pub list: List,
    pub running: bool,
}

/// A page count reported by the remote API is trusted only when positive; a
/// report of zero pages collapses to the sentinel 1, under which the next
/// request asks for the default page again.
pub fn clamp_pages(n: u64) -> (r: u64)
    ensures
        r == if n == 0 { 1u64 } else { n },
        r >= 1,
{
    if n == 0 {
        1
    } else {
        n
    }
}

impl App {
    /// The state invariant: the cached page count never drops below the
    /// sentinel 1.
    pub open spec fn wf(&self) -> bool {
        self.list.pages >= 1
    }

    /// A fresh loop state around a loaded configuration: nothing cached, the
    /// page count unresolved, the loop running.
    pub fn new(config: Config) -> (app: App)
        ensures
            app.config == config,
            app.list.content@.len() == 0,
            app.list.pages == 1,
            app.running,
            app.wf(),
    {
        App { config, list: List { content: Vec::new(), pages: 1 }, running: true }
    }

    /// Whether a configuration snapshot read back from disk differs from the
    /// one in memory: true exactly on structural inequality of the models.
    pub fn config_changed(&self, disk: &Config) -> (r: bool)
        ensures
            r == (self.config@ != disk@),
    {
        !self.config.eq_fields(disk)
    }

    /// Takes a configuration snapshot read from disk. When it differs from
    /// the one in memory it replaces it, and the cached page count falls
    /// back to the sentinel 1: a changed query invalidates the prior
    /// pagination, so the count must be resolved anew. An unchanged snapshot
    /// leaves everything as it was.
    pub fn sync_config(&mut self, disk: Config) -> (changed: bool)
        requires
            old(self).wf(),
        ensures
            changed == (old(self).config@ != disk@),
            changed ==> final(self).config == disk,
            changed ==> final(self).list.pages == 1,
            changed ==> final(self).list.content == old(self).list.content,
            !changed ==> *final(self) == *old(self),
            final(self).running == old(self).running,
            final(self).wf(),
    {
        if self.config_changed(&disk) {
            self.config = disk;
            self.list.pages = 1;
            true
        } else {
            false
        }
    }

    /// Chooses which page the next request asks for. While the page count is
    /// the sentinel 1 (unresolved, or genuinely one page) no page is named
    /// and the remote default, page 1, is used; otherwise a page is drawn
    /// uniformly from 1 up to the known count, and never outside it.
    pub fn select_page(&self) -> (p: Option<u64>)
        requires
            self.wf(),
        ensures
            p is None <==> self.list.pages == 1,
            p is Some ==> 1 <= p->0 <= self.list.pages,
    {
        if self.list.pages == 1 {
            None
        } else {
            let mut rng = fresh_rng();
            let off = random_below(&mut rng, self.list.pages);
            Some(1 + off)
        }
    }

    /// Builds the URL of the next request: the query of the current search
    /// configuration, with a page number exactly when the page count is
    /// already resolved above 1, and then one within it.
    pub fn build_request(&self) -> (r: String)
        requires
            self.wf(),
        ensures
            self.list.pages == 1 ==> r@ == request_url(self.config.search@, None),
            self.list.pages > 1 ==> exists|k: u64|
                1 <= k <= self.list.pages && r@ == request_url(self.config.search@, Some(k)),
    {
        let page = self.select_page();
        build_request_url(&self.config.search, page)
    }

    /// Takes the result page of one request into the cache. The content is
    /// replaced by the new references; the page count, when still
    /// unresolved, becomes the reported one (clamped to the sentinel when
    /// the report is 0), and is kept otherwise. Returns whether the page was
    /// empty, which the host surfaces as a warning: an empty page is no
    /// failure, but nothing will be applied this cycle.
    pub fn absorb_response(&mut self, page: ResultPage) -> (warn: bool)
        requires
            old(self).wf(),
        ensures
            final(self).wf(),
            warn == (page.paths@.len() == 0),
            final(self).list.content == page.paths,
            old(self).list.pages == 1 ==> final(self).list.pages == if page.last_page == 0 {
                1u64
            } else {
                page.last_page
            },
            old(self).list.pages != 1 ==> final(self).list.pages == old(self).list.pages,
            final(self).config == old(self).config,
            final(self).running == old(self).running,
    {
        if self.list.pages == 1 {
            self.list.pages = clamp_pages(page.last_page);
        }
        let warn = page.paths.len() == 0;
        self.list.content = page.paths;
        warn
    }

    /// Picks the image to apply: none when the cache is empty, else one of
    /// the cached references, drawn uniformly.
    pub fn pick_image(&self) -> (r: Option<String>)
        ensures
            r is Some <==> self.list.content@.len() > 0,
            r is Some ==> exists|i: int|
                0 <= i < self.list.content@.len() && r->0@ == self.list.content@[i]@,
    {
        let n = self.list.content.len();
        if n == 0 {
            None
        } else {
            let mut rng = fresh_rng();
            let off = random_below(&mut rng, n as u64);
            let i = off as usize;
            let s = self.list.content[i].clone();
            Some(s)
        }
    }

    /// Handles one event: the matching directive comes back for the host to
    /// perform, and only Quit changes the state, by stopping the loop.
    pub fn step(&mut self, event: &Event) -> (d: Directive)
        requires
            old(self).running,
        ensures
            d == directive_for(*event),
            final(self).config == old(self).config,
            final(self).list == old(self).list,
            final(self).running == !(*event is Quit),
    {
        match event {
            Event::RefreshWallpaper => Directive::StartCycle,
            Event::OpenConfig => Directive::OpenEditor,
            Event::Quit => {
                self.running = false;
                Directive::Stop
            },
        }
    }

    /// Handles a queue of events in arrival order. Every event strictly
    /// before the first Quit is handled and yields its directive, in order;
    /// the first Quit is handled last; nothing after it is observed. Without
    /// a Quit, every event is handled and the loop keeps running.
    pub fn run_script(&mut self, events: &Vec<Event>) -> (ds: Vec<Directive>)
        requires
            old(self).running,
        ensures
            forall|j: int| 0 <= j < ds@.len() ==> ds@[j] == directive_for(events@[j]),
            final(self).running ==> ds@.len() == events@.len(),
            final(self).running == (forall|j: int|
                0 <= j < events@.len() ==> !(events@[j] is Quit)),
            !final(self).running ==> {
                &&& 1 <= ds@.len() <= events@.len()
                &&& events@[ds@.len() - 1] is Quit
                &&& forall|j: int| 0 <= j < ds@.len() - 1 ==> !(events@[j] is Quit)
            },
            final(self).config == old(self).config,
            final(self).list == old(self).list,
    {
        let mut ds: Vec<Directive> = Vec::new();
        let mut i: usize = 0;
        while i < events.len()
            invariant
                i <= events@.len(),
                self.config == old(self).config,
                self.list == old(self).list,
                forall|j: int| 0 <= j < ds@.len() ==> ds@[j] == directive_for(events@[j]),
                self.running ==> ds@.len() == i,
                self.running == (forall|j: int| 0 <= j < i ==> !(events@[j] is Quit)),
                !self.running ==> {
                    &&& 1 <= ds@.len() <= i
                    &&& events@[ds@.len() - 1] is Quit
                    &&& forall|j: int| 0 <= j < ds@.len() - 1 ==> !(events@[j] is Quit)
                },
            decreases events@.len() - i,
        {
            if self.running {
                let d = self.step(&events[i]);
                ds.push(d);
            }
            i += 1;
        }
        ds
    }
}

} // verus!
