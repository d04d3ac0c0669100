//! Toasts: short notices shown to the user for a while.

use vstd::prelude::*;

verus! {

/// How serious a toast is.
#[derive(Clone, Copy, PartialEq, Eq, Debug, Structural)]
pub enum ToastLevel {
    Info,
    Success,
    Warning,
    Danger,
}

impl ToastLevel {
    /// The style class that marks a level on the page.
    pub open spec fn class(self) -> Seq<char> {
        match self {
            ToastLevel::Info => "is-info"@,
            ToastLevel::Success => "is-success"@,
            ToastLevel::Warning => "is-warning"@,
            ToastLevel::Danger => "is-danger"@,
        }
    }

    /// The style class for this level.
    pub fn classname(self) -> (class: &'static str)
        ensures
            class@ == self.class(),
    {
        match self {
            ToastLevel::Info => "is-info",
            ToastLevel::Success => "is-success",
            ToastLevel::Warning => "is-warning",
            ToastLevel::Danger => "is-danger",
        }
    }
}

/// A notice: what it says, how serious it is, and for how many milliseconds
/// it stays, if it goes away by itself at all.
#[derive(Debug, PartialEq, Eq)]
pub struct Toast {
    message: String,
    level: ToastLevel,
    lifetime: Option<usize>,
}

/// A toast as plain values.
pub struct ToastView {
    pub message: Seq<char>,
    pub level: ToastLevel,
    pub lifetime: Option<usize>,
}

impl View for Toast {
    type V = ToastView;

    closed spec fn view(&self) -> ToastView {
        ToastView { message: self.message@, level: self.level, lifetime: self.lifetime }
    }
}

impl Toast {
    /// An informational toast that stays until it is closed.
    pub fn new(message: &str) -> (toast: Toast)
        ensures
            toast@ == (ToastView { message: message@, level: ToastLevel::Info, lifetime: None }),
    {
        Toast { message: message.to_owned(), level: ToastLevel::Info, lifetime: None }
    }

    /// The same toast at another level.
    pub fn with_level(self, level: ToastLevel) -> (toast: Toast)
        ensures
            toast@ == (ToastView { level, ..self@ }),
    {
        Toast { level, ..self }
    }

    /// The same toast with another lifetime, in milliseconds; without one it
    /// stays until it is closed.
    pub fn with_lifetime(self, millis: Option<usize>) -> (toast: Toast)
        ensures
            toast@ == (ToastView { lifetime: millis, ..self@ }),
    {
        Toast { lifetime: millis, ..self }
    }

    /// What the toast says.
    pub fn message(&self) -> (text: &str)
        ensures
            text@ == self@.message,
    {
        self.message.as_str()
    }

    /// How serious the toast is.
    pub fn level(&self) -> (level: ToastLevel)
        ensures
            level == self@.level,
    {
        self.level
    }

    /// For how many milliseconds the toast stays, if it goes away by itself.
    pub fn lifetime(&self) -> (millis: Option<usize>)
        ensures
            millis == self@.lifetime,
    {
        self.lifetime
    }
}

impl Clone for Toast {
    fn clone(&self) -> (copy: Toast)
        ensures
            copy@ == self@,
    {
        Toast { message: self.message.clone(), level: self.level, lifetime: self.lifetime }
    }
}

/// A toast on the rack: its number, and for how many milliseconds it has
/// been shown.
#[derive(Debug, PartialEq, Eq)]
pub struct ToastListEntry {
    pub nr: usize,
    pub toast: Toast,
    pub age: usize,
}

/// An entry of the rack as plain values.
pub struct ToastListEntryView {
    pub nr: usize,
    pub toast: ToastView,
    pub age: usize,
}

impl View for ToastListEntry {
    type V = ToastListEntryView;

    open spec fn view(&self) -> ToastListEntryView {
        ToastListEntryView { nr: self.nr, toast: self.toast@, age: self.age }
    }
}

impl Clone for ToastListEntry {
    fn clone(&self) -> (copy: ToastListEntry)
        ensures
            copy@ == self@,
    {
        ToastListEntry { nr: self.nr, toast: self.toast.clone(), age: self.age }
    }
}

/// The views of the entries of a rack.
pub open spec fn entry_views(entries: Seq<ToastListEntry>) -> Seq<ToastListEntryView> {
    Seq::new(entries.len(), |i: int| entries[i]@)
}

/// The rack of toasts that a page shows.
#[derive(Debug, PartialEq, Eq)]
pub struct ToastList {
    nr: usize,
    paused: bool,
    toasts: Vec<ToastListEntry>,
}

/// The rack as plain values: the number that the next toast gets, whether
/// time stands still, and the toasts, oldest first.
pub struct ToastListView {
    pub nr: usize,
    pub paused: bool,
    pub toasts: Seq<ToastListEntryView>,
}

impl View for ToastList {
    type V = ToastListView;

    closed spec fn view(&self) -> ToastListView {
        ToastListView { nr: self.nr, paused: self.paused, toasts: entry_views(self.toasts@) }
    }
}

/// What can happen to a rack.
#[derive(Debug)]
pub enum ToastListAction {
    /// A toast is put on the rack.
    NewToast(Toast),
    /// One tick of time has passed.
    TimerTick,
    /// The toast with this number is taken off.
    Close(usize),
    /// Time stands still from now on.
    Pause,
    /// Time runs again.
    Unpause,
}

/// An action on a rack as plain values.
pub enum ToastListActionView {
    NewToast(ToastView),
    TimerTick,
    Close(usize),
    Pause,
    Unpause,
}

impl View for ToastListAction {
    type V = ToastListActionView;

    open spec fn view(&self) -> ToastListActionView {
        match self {
            ToastListAction::NewToast(toast) => ToastListActionView::NewToast(toast@),
            ToastListAction::TimerTick => ToastListActionView::TimerTick,
            ToastListAction::Close(nr) => ToastListActionView::Close(*nr),
            ToastListAction::Pause => ToastListActionView::Pause,
            ToastListAction::Unpause => ToastListActionView::Unpause,
        }
    }
}

/// The milliseconds that pass with one tick.
pub const TICK_TIME_MILLIS: usize = 10;

/// The largest number among entries, or zero where there are none.
pub open spec fn highest_nr(entries: Seq<ToastListEntryView>) -> nat
    decreases entries.len(),
{
    if entries.len() == 0 {
        0
    } else {
        let rest = highest_nr(entries.drop_last());
        if entries.last().nr > rest {
            entries.last().nr as nat
        } else {
            rest
        }
    }
}

impl ToastListEntryView {
    /// Whether the entry is still there after one more tick: it has no
    /// lifetime, or is no older than its lifetime then.
    pub open spec fn outlives_tick(self) -> bool {
        match self.toast.lifetime {
            Some(lifetime) => self.age + TICK_TIME_MILLIS <= lifetime,
            None => true,
        }
    }

    /// The entry one tick later.  Only toasts with a lifetime age.
    pub open spec fn ticked(self) -> ToastListEntryView {
        match self.toast.lifetime {
            Some(_) => ToastListEntryView { age: (self.age + TICK_TIME_MILLIS) as usize, ..self },
            None => self,
        }
    }
}

impl ToastListView {
    /// Whether the rack has to be ticked: time runs and some toast has a
    /// lifetime.
    pub open spec fn needs_ticking(self) -> bool {
        !self.paused && exists|i: int|
            0 <= i < self.toasts.len() && (#[trigger] self.toasts[i]).toast.lifetime is Some
    }

    /// The toasts one tick later: those that outlive the tick, each one
    /// tick older.
    pub open spec fn ticked_toasts(self) -> Seq<ToastListEntryView> {
        self.toasts.filter(|entry: ToastListEntryView| entry.outlives_tick()).map_values(
            |entry: ToastListEntryView| entry.ticked(),
        )
    }

    /// The toasts without those that carry a number.
    pub open spec fn without(self, nr: usize) -> Seq<ToastListEntryView> {
        self.toasts.filter(|entry: ToastListEntryView| entry.nr != nr)
    }

    /// The rack after an action.  A rack that is paused or empty does not
    /// tick.  Taking the last toast off ends a pause.
    pub open spec fn after(self, action: ToastListActionView) -> ToastListView {
        match action {
            ToastListActionView::TimerTick => if self.paused || self.toasts.len() == 0 {
                self
            } else {
                ToastListView {
                    nr: self.nr,
                    paused: self.paused && self.ticked_toasts().len() > 0,
                    toasts: self.ticked_toasts(),
                }
            },
            ToastListActionView::NewToast(toast) => ToastListView {
                nr: (self.nr + 1) as usize,
                paused: self.paused,
                toasts: self.toasts.push(ToastListEntryView { nr: self.nr, toast, age: 0 }),
            },
            ToastListActionView::Close(nr) => ToastListView {
                nr: self.nr,
                paused: self.paused && self.without(nr).len() > 0,
                toasts: self.without(nr),
            },
            ToastListActionView::Pause => ToastListView { paused: true, ..self },
            ToastListActionView::Unpause => ToastListView { paused: false, ..self },
        }
    }

    /// Whether an action changes the toasts, so that they have to be stored
    /// again.
    pub open spec fn stores(self, action: ToastListActionView) -> bool {
        match action {
            ToastListActionView::TimerTick => !(self.paused || self.toasts.len() == 0),
            ToastListActionView::NewToast(_) => true,
            ToastListActionView::Close(_) => true,
            ToastListActionView::Pause => false,
            ToastListActionView::Unpause => false,
        }
    }
}

fn copy_entries(entries: &Vec<ToastListEntry>) -> (copies: Vec<ToastListEntry>)
    ensures
        entry_views(copies@) == entry_views(entries@),
{
    let mut copies: Vec<ToastListEntry> = Vec::new();
    let mut i: usize = 0;
    while i < entries.len()
        invariant
            i <= entries@.len(),
            copies@.len() == i,
            forall|j: int| 0 <= j < i ==> copies@[j]@ == entries@[j]@,
        decreases entries@.len() - i,
    {
        copies.push(entries[i].clone());
        i += 1;
    }
    assert(entry_views(copies@) =~= entry_views(entries@));
    copies
}

impl ToastList {
    /// A rack with the toasts that were stored.  New toasts are numbered
    /// from the highest stored number plus the number of stored toasts.
    pub fn new(rack: Vec<ToastListEntry>) -> (list: ToastList)
        requires
            highest_nr(entry_views(rack@)) + rack@.len() <= usize::MAX,
        ensures
            list@ == (ToastListView {
                nr: (highest_nr(entry_views(rack@)) + rack@.len()) as usize,
                paused: false,
                toasts: entry_views(rack@),
            }),
    {
        let ghost views = entry_views(rack@);
        let mut highest: usize = 0;
        let mut i: usize = 0;
        while i < rack.len()
            invariant
                i <= rack@.len(),
                views == entry_views(rack@),
                highest == highest_nr(views.take(i as int)),
            decreases rack@.len() - i,
        {
            proof {
                assert(views.take(i + 1).drop_last() =~= views.take(i as int));
            }
            if rack[i].nr > highest {
                highest = rack[i].nr;
            }
            i += 1;
        }
        proof {
            assert(views.take(i as int) =~= views);
        }
        ToastList { nr: highest + rack.len(), paused: false, toasts: rack }
    }

    /// The toasts on the rack, oldest first.
    pub fn iter(&self) -> (toasts: &[ToastListEntry])
        ensures
            entry_views(toasts@) == self@.toasts,
    {
        self.toasts.as_slice()
    }

    /// Whether the rack is empty.
    pub fn is_empty(&self) -> (empty: bool)
        ensures
            empty == (self@.toasts.len() == 0),
    {
        self.toasts.is_empty()
    }

    /// Whether time stands still.
    pub fn is_paused(&self) -> (paused: bool)
        ensures
            paused == self@.paused,
    {
        self.paused
    }

    /// Whether the rack has to be ticked.
    #[verifier::loop_isolation(false)]
    pub fn needs_ticking(&self) -> (ticking: bool)
        ensures
            ticking == self@.needs_ticking(),
    {
        if self.paused {
            return false;
        }
        let mut i: usize = 0;
        while i < self.toasts.len()
            invariant
                i <= self.toasts@.len(),
                forall|j: int| 0 <= j < i ==> (#[trigger] entry_views(self.toasts@)[j]).toast.lifetime
                    is None,
            decreases self.toasts@.len() - i,
        {
            if self.toasts[i].toast.lifetime().is_some() {
                assert(entry_views(self.toasts@)[i as int].toast.lifetime is Some);
                return true;
            }
            i += 1;
        }
        false
    }

    /// Whether an action changes the toasts, so that they have to be stored
    /// again.
    pub fn stores(&self, action: &ToastListAction) -> (changed: bool)
        ensures
            changed == self@.stores(action@),
    {
        match action {
            ToastListAction::TimerTick => !(self.paused || self.toasts.is_empty()),
            ToastListAction::NewToast(_) => true,
            ToastListAction::Close(_) => true,
            ToastListAction::Pause => false,
            ToastListAction::Unpause => false,
        }
    }

    fn tick(&self) -> (toasts: Vec<ToastListEntry>)
        ensures
            entry_views(toasts@) == self@.ticked_toasts(),
    {
        let ghost all = entry_views(self.toasts@);
        let ghost keep = |entry: ToastListEntryView| entry.outlives_tick();
        let ghost grow = |entry: ToastListEntryView| entry.ticked();
        let mut toasts: Vec<ToastListEntry> = Vec::new();
        let mut i: usize = 0;
        assert(all.take(0).filter(keep) =~= Seq::empty()) by {
            reveal(Seq::filter);
        }
        assert(entry_views(toasts@) =~= all.take(0).filter(keep).map_values(grow));
        while i < self.toasts.len()
            invariant
                i <= self.toasts@.len(),
                all == entry_views(self.toasts@),
                keep == |entry: ToastListEntryView| entry.outlives_tick(),
                grow == |entry: ToastListEntryView| entry.ticked(),
                entry_views(toasts@) == all.take(i as int).filter(keep).map_values(grow),
            decreases self.toasts@.len() - i,
        {
            let entry = &self.toasts[i];
            let ghost before = entry_views(toasts@);
            let ghost kept = all.take(i as int).filter(keep);
            proof {
                assert(all.take(i + 1) == all.take(i as int).push(entry@));
                all.take(i as int).lemma_filter_push(entry@, keep);
            }
            match entry.toast.lifetime() {
                None => {
                    toasts.push(entry.clone());
                    assert(entry_views(toasts@) =~= before.push(grow(entry@)));
                    assert(kept.push(entry@).map_values(grow) =~= kept.map_values(grow).push(
                        grow(entry@),
                    ));
                },
                Some(lifetime) => {
                    if entry.age <= lifetime && lifetime - entry.age >= TICK_TIME_MILLIS {
                        toasts.push(
                            ToastListEntry {
                                nr: entry.nr,
                                toast: entry.toast.clone(),
                                age: entry.age + TICK_TIME_MILLIS,
                            },
                        );
                        assert(entry_views(toasts@) =~= before.push(grow(entry@)));
                        assert(kept.push(entry@).map_values(grow) =~= kept.map_values(grow).push(
                            grow(entry@),
                        ));
                    }
                },
            }
            i += 1;
        }
        assert(all.take(i as int) == all);
        toasts
    }

    fn close(&self, nr: usize) -> (toasts: Vec<ToastListEntry>)
        ensures
            entry_views(toasts@) == self@.without(nr),
    {
        let ghost all = entry_views(self.toasts@);
        let ghost keep = |entry: ToastListEntryView| entry.nr != nr;
        let mut toasts: Vec<ToastListEntry> = Vec::new();
        let mut i: usize = 0;
        assert(all.take(0).filter(keep) =~= Seq::empty()) by {
            reveal(Seq::filter);
        }
        assert(entry_views(toasts@) =~= all.take(0).filter(keep));
        while i < self.toasts.len()
            invariant
                i <= self.toasts@.len(),
                all == entry_views(self.toasts@),
                keep == |entry: ToastListEntryView| entry.nr != nr,
                entry_views(toasts@) == all.take(i as int).filter(keep),
            decreases self.toasts@.len() - i,
        {
            let entry = &self.toasts[i];
            let ghost before = entry_views(toasts@);
            proof {
                assert(all.take(i + 1) == all.take(i as int).push(entry@));
                all.take(i as int).lemma_filter_push(entry@, keep);
            }
            if entry.nr != nr {
                toasts.push(entry.clone());
                assert(entry_views(toasts@) =~= before.push(entry@));
            }
            i += 1;
        }
        assert(all.take(i as int) == all);
        toasts
    }

    /// The rack after an action.  A new toast needs a number to be left for
    /// the toast after it.
    pub fn reduce(&self, action: ToastListAction) -> (next: ToastList)
        requires
            action is NewToast ==> self@.nr < usize::MAX,
        ensures
            next@ == self@.after(action@),
    {
        match action {
            ToastListAction::TimerTick => {
                if self.paused || self.toasts.is_empty() {
                    ToastList {
                        nr: self.nr,
                        paused: self.paused,
                        toasts: copy_entries(&self.toasts),
                    }
                } else {
                    let toasts = self.tick();
                    ToastList { nr: self.nr, paused: self.paused && !toasts.is_empty(), toasts }
                }
            },
            ToastListAction::NewToast(toast) => {
                let mut toasts = copy_entries(&self.toasts);
                let ghost before = entry_views(toasts@);
                toasts.push(ToastListEntry { nr: self.nr, toast, age: 0 });
                assert(entry_views(toasts@) =~= before.push(
                    ToastListEntryView { nr: self.nr, toast: toast@, age: 0 },
                ));
                ToastList { nr: self.nr + 1, paused: self.paused, toasts }
            },
            ToastListAction::Close(nr) => {
                let toasts = self.close(nr);
                ToastList { nr: self.nr, paused: self.paused && !toasts.is_empty(), toasts }
            },
            ToastListAction::Pause => ToastList {
                nr: self.nr,
                paused: true,
                toasts: copy_entries(&self.toasts),
            },
            ToastListAction::Unpause => ToastList {
                nr: self.nr,
                paused: false,
                toasts: copy_entries(&self.toasts),
            },
        }
    }
}

/// The corner of the page in which the rack stands.
#[derive(Debug, Clone, Copy, PartialEq, Eq, Structural)]
pub enum ToastLocation {
    TopLeft,
    TopRight,
    BottomLeft,
    BottomRight,
}

impl ToastLocation {
    /// Whether the rack grows upwards, so that the newest toast is nearest
    /// to the corner.
    pub fn reverse(self) -> (upwards: bool)
        ensures
            upwards == (self == ToastLocation::BottomLeft || self == ToastLocation::BottomRight),
    {
        matches!(self, ToastLocation::BottomLeft | ToastLocation::BottomRight)
    }
}

/// Every toast on a rack that did not start with any is numbered below the
/// number that the next toast gets, so no two toasts share a number.
pub proof fn numbers_stay_below_next(list: ToastListView, action: ToastListActionView)
    requires
        forall|i: int| 0 <= i < list.toasts.len() ==> (#[trigger] list.toasts[i]).nr < list.nr,
        list.nr < usize::MAX,
    ensures
        forall|i: int|
            0 <= i < list.after(action).toasts.len() ==> (#[trigger] list.after(action).toasts[i]).nr
                < list.after(action).nr,
{
    let keep = |entry: ToastListEntryView| entry.outlives_tick();
    let grow = |entry: ToastListEntryView| entry.ticked();
    let next = list.after(action);
    match action {
        ToastListActionView::TimerTick => {
            if !(list.paused || list.toasts.len() == 0) {
                let kept = list.toasts.filter(keep);
                assert forall|i: int| 0 <= i < next.toasts.len() implies (
                #[trigger] next.toasts[i]).nr < next.nr by {
                    assert(next.toasts[i] == grow(kept[i]));
                    list.toasts.lemma_filter_contains_rev(keep, kept[i]);
                }
            }
        },
        ToastListActionView::Close(nr) => {
            let keep_others = |entry: ToastListEntryView| entry.nr != nr;
            assert forall|i: int| 0 <= i < next.toasts.len() implies (#[trigger] next.toasts[i]).nr
                < next.nr by {
                list.toasts.lemma_filter_contains_rev(keep_others, next.toasts[i]);
            }
        },
        _ => {},
    }
}

} // verus!
