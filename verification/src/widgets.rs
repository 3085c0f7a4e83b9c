//! Services shared by the graphs, and the global space's widget service: a
//! list of distinct widget names, registered as the global space's operators
//! start.

use vstd::prelude::*;

verus! {

/// A service shared by graphs, which can describe itself and be started,
/// stopped and restarted.
pub trait SharedService {
    /// What the service is for.
    fn purpose(&self) -> String;
    /// Starts the service.
    fn start(&self);
    /// Stops the service.
    fn stop(&self);
    /// Restarts the service.
    fn restart(&self);
}

/// The widgets of the global space, each name once, in the order added.
#[derive(Debug)]
pub struct WidgetsSharedService {
    data: Vec<String>,
}

/// What `format!("{:?}", ...)` prints for a list of strings.
pub uninterp spec fn debug_list(items: Seq<Seq<char>>) -> Seq<char>;

/// Prints a list of strings in debug form; the result is named
/// `debug_list` of the strings.
#[verifier::external_body]
fn debug_text(items: &Vec<String>) -> (res: String)
    ensures
        res@ == debug_list(items@.map_values(|s: String| s@)),
{
    format!("{:?}", items)
}

/// The list after adding a widget: unchanged when the name is already
/// there, otherwise the name appended.
pub open spec fn with_widget(widgets: Seq<Seq<char>>, w: Seq<char>) -> Seq<Seq<char>> {
    if widgets.contains(w) {
        widgets
    } else {
        widgets.push(w)
    }
}

impl WidgetsSharedService {
    /// The widget names, in order.
    pub closed spec fn widgets(&self) -> Seq<Seq<char>> {
        self.data@.map_values(|s: String| s@)
    }

    /// A service without widgets.
    pub fn new() -> (res: Self)
        ensures
            res.widgets() == Seq::<Seq<char>>::empty(),
    {
        let res = WidgetsSharedService { data: Vec::new() };
        assert(res.widgets() =~= Seq::<Seq<char>>::empty());
        res
    }

    /// Adds a widget name, unless it is already there.
    pub fn add_widget(&mut self, widget: String)
        ensures
            final(self).widgets() == with_widget(old(self).widgets(), widget@),
    {
        let ghost before = self.widgets();
        let mut i: usize = 0;
        while i < self.data.len()
            invariant
                i <= self.data@.len(),
                before == self.data@.map_values(|s: String| s@),
                forall|j: int| 0 <= j < i ==> before[j] != widget@,
            decreases self.data@.len() - i,
        {
            if self.data[i] == widget {
                assert(before[i as int] == widget@);
                return;
            }
            i = i + 1;
        }
        assert(!before.contains(widget@)) by {
            if before.contains(widget@) {
                let k = choose|k: int| 0 <= k < before.len() && #[trigger] before[k] == widget@;
                assert(before[k] != widget@);
            }
        }
        self.data.push(widget);
        assert(self.widgets() =~= before.push(widget@));
    }

    /// The widget names.
    pub fn get_widgets(&self) -> (res: &Vec<String>)
        ensures
            res@.map_values(|s: String| s@) == self.widgets(),
    {
        &self.data
    }

    /// The shared instance held in `slot`, created without widgets when
    /// there is none.
    pub fn get_instance(slot: &mut Option<WidgetsSharedService>)
        ensures
            *final(slot) is Some,
            *old(slot) is Some ==> *final(slot) == *old(slot),
            *old(slot) is None ==> final(slot)->0.widgets() == Seq::<Seq<char>>::empty(),
    {
        if slot.is_none() {
            *slot = Some(WidgetsSharedService::new());
        }
    }

    /// Drops the shared instance held in `slot`.
    pub fn drop_instance(slot: &mut Option<WidgetsSharedService>)
        ensures
            *final(slot) is None,
    {
        *slot = None;
    }
}

/// The purpose text: "Global Space Shared Widgets with " and the widget
/// list in debug form.
pub open spec fn purpose_text(widgets: Seq<Seq<char>>) -> Seq<char> {
    "Global Space Shared Widgets with "@ + debug_list(widgets)
}

impl SharedService for WidgetsSharedService {
    fn purpose(&self) -> (res: String)
        ensures
            res@ == purpose_text(self.widgets()),
    {
        let mut s = String::from_str("Global Space Shared Widgets with ");
        let list = debug_text(&self.data);
        s.append(list.as_str());
        s
    }

    /// Starting needs nothing beyond the widgets already registered.
    fn start(&self) {
    }

    /// Stopping releases nothing.
    fn stop(&self) {
    }

    /// Restarting is not supported: this does nothing.
    fn restart(&self) {
    }
}

/// Registers the runtime named `runtime_name` as a widget of the shared
/// instance in `slot`, creating the instance when there is none.
pub fn setup_shared_resource(slot: &mut Option<WidgetsSharedService>, runtime_name: String)
    ensures
        *final(slot) is Some,
        final(slot)->0.widgets() == with_widget(
            match *old(slot) {
                Some(w) => w.widgets(),
                None => Seq::<Seq<char>>::empty(),
            },
            runtime_name@,
        ),
{
    WidgetsSharedService::get_instance(slot);
    match slot {
        Some(w) => w.add_widget(runtime_name),
        None => {},
    }
}

/// Adding a widget twice is adding it once.
pub proof fn add_widget_twice(widgets: Seq<Seq<char>>, w: Seq<char>)
    ensures
        with_widget(with_widget(widgets, w), w) == with_widget(widgets, w),
{
    if !widgets.contains(w) {
        assert(widgets.push(w)[widgets.len() as int] == w);
    }
}

/// After adding a widget it is listed, and the list never holds a name twice.
pub proof fn widgets_stay_distinct(widgets: Seq<Seq<char>>, w: Seq<char>)
    requires
        widgets.no_duplicates(),
    ensures
        with_widget(widgets, w).contains(w),
        with_widget(widgets, w).no_duplicates(),
        forall|x: Seq<char>| #[trigger] widgets.contains(x) ==> with_widget(widgets, w).contains(x),
{
    if !widgets.contains(w) {
        let s = widgets.push(w);
        assert(s[widgets.len() as int] == w);
        assert forall|a: int, b: int| 0 <= a < s.len() && 0 <= b < s.len() && a != b implies s[a] != s[b] by {
            if a == widgets.len() {
                assert(s[b] == widgets[b]);
            } else if b == widgets.len() {
                assert(s[a] == widgets[a]);
            }
        }
        assert forall|x: Seq<char>| #[trigger] widgets.contains(x) implies s.contains(x) by {
            let i = choose|i: int| 0 <= i < widgets.len() && widgets[i] == x;
            assert(s[i] == x);
        }
    }
}

} // verus!
