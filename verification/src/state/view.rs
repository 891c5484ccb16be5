use vstd::prelude::*;
use vstd::string::StringExecFns;
use vstd::view::View as _;

verus! {

/// Oversees management of view data.
#[derive(Debug)]
pub struct View {
    title: String,
}

impl vstd::view::View for View {
    type V = Seq<char>;

    /// A view is its title.
    closed spec fn view(&self) -> Seq<char> {
        self.title@
    }
}

impl PartialEq for View {
    fn eq(&self, other: &Self) -> (res: bool) {
        self.title == other.title
    }
}

impl vstd::std_specs::cmp::PartialEqSpecImpl for View {
    open spec fn obeys_eq_spec() -> bool {
        true
    }

    open spec fn eq_spec(&self, other: &Self) -> bool {
        self@ == other@
    }
}

impl Eq for View {

}

impl View {
    /// Returns the view title.
    pub fn title(&self) -> (res: &str)
        ensures
            res@ == self@,
    {
        self.title.as_str()
    }
}

/// Returns the default welcome view.
pub fn welcome() -> (res: View)
    ensures
        res@ == "Welcome"@,
{
    View { title: String::from_str("Welcome") }
}

/// Returns the default my-tasks view.
pub fn my_tasks() -> (res: View)
    ensures
        res@ == "My Tasks"@,
{
    View { title: String::from_str("My Tasks") }
}

/// Returns the default due-soon view.
pub fn due_soon() -> (res: View)
    ensures
        res@ == "Due Soon"@,
{
    View { title: String::from_str("Due Soon") }
}

/// Returns the default past-due view.
pub fn past_due() -> (res: View)
    ensures
        res@ == "Past Due"@,
{
    View { title: String::from_str("Past Due") }
}

/// Returns the default recently-created view.
pub fn recently_created() -> (res: View)
    ensures
        res@ == "Recently Created"@,
{
    View { title: String::from_str("Recently Created") }
}

/// Returns the default recently-edited view.
pub fn recently_edited() -> (res: View)
    ensures
        res@ == "Recently Edited"@,
{
    View { title: String::from_str("Recently Edited") }
}

/// Returns the default recently-completed view.
pub fn recently_completed() -> (res: View)
    ensures
        res@ == "Recently Completed"@,
{
    View { title: String::from_str("Recently Completed") }
}

} // verus!
