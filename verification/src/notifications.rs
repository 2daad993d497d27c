//! On-screen notifications: a queue of timed messages.
use vstd::prelude::*;
use crate::resources::ResColor;

verus! {

/// A message shown for a number of frames.
pub struct Notification {
    pub header: String,
    pub message: String,
    pub length: u32,
    pub color: ResColor,
    pub has_drawn: bool,
}

/// Black, fully opaque: the colour of plain notifications.
pub open spec fn default_notification_color() -> ResColor {
    ResColor { r: 0, g: 0, b: 0, a: 255 }
}

/// The notification is kept by `clear_notifications(header)`.
pub open spec fn kept_by_clear(n: Notification, header: Seq<char>) -> bool {
    n.header@ != header
}

impl Notification {
    /// A notification that has not been drawn yet.
    pub fn new(header: String, message: String, length: u32, color: ResColor) -> (n: Notification)
        ensures
            n.header == header,
            n.message == message,
            n.length == length,
            n.color == color,
            !n.has_drawn,
    {
        Notification { header, message, length, color, has_drawn: false }
    }

    /// Marks the notification as drawn.
    pub fn set_drawn(&mut self)
        ensures
            final(self).has_drawn,
            final(self).header == old(self).header,
            final(self).message == old(self).message,
            final(self).length == old(self).length,
            final(self).color == old(self).color,
    {
        self.has_drawn = true;
    }

    /// Whether the notification has been drawn.
    pub fn has_drawn(&mut self) -> (b: bool)
        ensures
            b == old(self).has_drawn,
            *final(self) == *old(self),
    {
        self.has_drawn
    }

    /// One frame of the notification has passed.
    pub fn tick(&mut self)
        requires
            old(self).length > 0,
        ensures
            final(self).length == old(self).length - 1,
            final(self).header == old(self).header,
            final(self).message == old(self).message,
            final(self).color == old(self).color,
            final(self).has_drawn == old(self).has_drawn,
    {
        self.length = self.length - 1;
    }

    /// Whether the notification has at most one frame left.
    pub fn check_completed(&mut self) -> (b: bool)
        ensures
            b == (old(self).length <= 1),
            *final(self) == *old(self),
    {
        if self.length <= 1 {
            return true;
        }
        false
    }
}

/// Queues a plain (black) notification.
pub fn notification(queue: &mut Vec<Notification>, header: String, message: String, len: u32)
    ensures
        final(queue)@.len() == old(queue)@.len() + 1,
        final(queue)@.subrange(0, old(queue)@.len() as int) == old(queue)@,
        final(queue)@.last().header == header,
        final(queue)@.last().message == message,
        final(queue)@.last().length == len,
        final(queue)@.last().color == default_notification_color(),
        !final(queue)@.last().has_drawn,
{
    queue.push(Notification::new(header, message, len, ResColor { r: 0, g: 0, b: 0, a: 255 }));
    assert(queue@.subrange(0, old(queue)@.len() as int) =~= old(queue)@);
}

/// Queues a notification of the given colour.
pub fn color_notification(queue: &mut Vec<Notification>, header: String, message: String, len: u32, color: ResColor)
    ensures
        final(queue)@.len() == old(queue)@.len() + 1,
        final(queue)@.subrange(0, old(queue)@.len() as int) == old(queue)@,
        final(queue)@.last().header == header,
        final(queue)@.last().message == message,
        final(queue)@.last().length == len,
        final(queue)@.last().color == color,
        !final(queue)@.last().has_drawn,
{
    queue.push(Notification::new(header, message, len, color));
    assert(queue@.subrange(0, old(queue)@.len() as int) =~= old(queue)@);
}

/// Removes every queued notification.
pub fn clear_all_notifications(queue: &mut Vec<Notification>)
    ensures
        final(queue)@.len() == 0,
{
    queue.clear();
}

/// Removes every queued notification with the given header, keeping the
/// order of the others.
pub fn clear_notifications(queue: &mut Vec<Notification>, header: &str)
    ensures
        final(queue)@ == old(queue)@.filter(|n: Notification| kept_by_clear(n, header@)),
{
    let ghost before = queue@;
    let ghost pred = |n: Notification| kept_by_clear(n, header@);
    let target = header.to_owned();
    let mut kept: Vec<Notification> = Vec::new();
    let ghost mut j: int = 0;
    while queue.len() > 0
        invariant
            target@ == header@,
            pred == (|n: Notification| kept_by_clear(n, header@)),
            0 <= j <= before.len(),
            kept@ == before.subrange(0, j).filter(pred),
            queue@ == before.subrange(j, before.len() as int),
        decreases queue.len(),
    {
        let n = queue.remove(0);
        proof {
            assert(before.subrange(0, j + 1) =~= before.subrange(0, j).push(n));
            before.subrange(0, j).lemma_filter_push(n, pred);
            j = j + 1;
            assert(queue@ =~= before.subrange(j, before.len() as int));
        }
        if !(n.header == target) {
            kept.push(n);
        }
    }
    assert(before.subrange(0, j) =~= before);
    *queue = kept;
}

/// What the notification display shows this frame.
pub struct NotificationDisplay {
    /// The notification pane is shown.
    pub visible: bool,
    /// The header, message and colour of a notification shown for the first time.
    pub newly_shown: Option<(String, String, ResColor)>,
}

/// The display's frame: with the game's combo display off the queue is
/// emptied; the first notification is shown (unless the quick menu is open),
/// one frame of it passes, its text is handed out the first time, and it
/// leaves the queue when it has at most one frame left.
pub fn draw_notifications(queue: &mut Vec<Notification>, combo_display_on: bool, quick_menu_active: bool) -> (d: NotificationDisplay)
    requires
        combo_display_on && old(queue)@.len() > 0 ==> old(queue)@[0].length > 0,
    ensures
        ({
            let q = if combo_display_on { old(queue)@ } else { Seq::<Notification>::empty() };
            &&& d.visible == (q.len() > 0 && !quick_menu_active)
            &&& q.len() == 0 ==> final(queue)@.len() == 0 && d.newly_shown is None
            &&& q.len() > 0 ==> {
                let n = q[0];
                let ticked = Notification { length: (n.length - 1) as u32, has_drawn: true, ..n };
                &&& n.has_drawn ==> d.newly_shown is None
                &&& !n.has_drawn ==> (d.newly_shown matches Some(s) && s.0@ == n.header@ && s.1@ == n.message@
                    && s.2 == n.color)
                &&& ticked.length <= 1 ==> final(queue)@ == q.subrange(1, q.len() as int)
                &&& ticked.length > 1 ==> final(queue)@ == q.update(0, ticked)
            }
        }),
{
    if !combo_display_on {
        clear_all_notifications(queue);
    }
    let visible = queue.len() > 0 && !quick_menu_active;
    if queue.len() == 0 {
        return NotificationDisplay { visible, newly_shown: None };
    }
    let ghost q = queue@;
    let mut n = queue.remove(0);
    n.tick();
    let newly_shown = if !n.has_drawn() {
        n.set_drawn();
        Some((n.header.clone(), n.message.clone(), n.color))
    } else {
        None
    };
    let completed = n.check_completed();
    if !completed {
        queue.insert(0, n);
        assert(queue@ =~= q.update(0, n));
    } else {
        assert(queue@ =~= q.subrange(1, q.len() as int));
    }
    NotificationDisplay { visible, newly_shown }
}

} // verus!
