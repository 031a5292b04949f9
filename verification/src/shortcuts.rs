//! Keyboard shortcuts: the player's actions, their default key bindings, and
//! the user's settings over them.
use vstd::prelude::*;

use crate::path::join_path;
use crate::xdg::XdgPaths;

verus! {

/// An action that a keyboard shortcut can trigger.
#[derive(Debug, Clone, Copy, PartialEq, Eq, PartialOrd, Ord, Hash, Structural)]
pub enum ShortcutAction {
    TogglePause,
    SeekBackward,
    SeekForward,
    VolumeUp,
    VolumeDown,
    ToggleFullscreen,
    ToggleMute,
    Screenshot,
    Stop,
    SpeedDown,
    SpeedUp,
    OpenFile,
    TogglePlaylist,
    OpenSettings,
}

impl ShortcutAction {
    /// Every action, in the order the settings list them.
    pub const ALL: [ShortcutAction; 14] = [
        ShortcutAction::TogglePause,
        ShortcutAction::SeekBackward,
        ShortcutAction::SeekForward,
        ShortcutAction::VolumeUp,
        ShortcutAction::VolumeDown,
        ShortcutAction::ToggleFullscreen,
        ShortcutAction::ToggleMute,
        ShortcutAction::Screenshot,
        ShortcutAction::Stop,
        ShortcutAction::SpeedDown,
        ShortcutAction::SpeedUp,
        ShortcutAction::OpenFile,
        ShortcutAction::TogglePlaylist,
        ShortcutAction::OpenSettings,
    ];

    /// The position of the action in [`ShortcutAction::ALL`].
    pub open spec fn ordinal(self) -> nat {
        match self {
            ShortcutAction::TogglePause => 0,
            ShortcutAction::SeekBackward => 1,
            ShortcutAction::SeekForward => 2,
            ShortcutAction::VolumeUp => 3,
            ShortcutAction::VolumeDown => 4,
            ShortcutAction::ToggleFullscreen => 5,
            ShortcutAction::ToggleMute => 6,
            ShortcutAction::Screenshot => 7,
            ShortcutAction::Stop => 8,
            ShortcutAction::SpeedDown => 9,
            ShortcutAction::SpeedUp => 10,
            ShortcutAction::OpenFile => 11,
            ShortcutAction::TogglePlaylist => 12,
            ShortcutAction::OpenSettings => 13,
        }
    }

    /// The action at position `i` of [`ShortcutAction::ALL`].
    pub open spec fn at(i: nat) -> ShortcutAction {
        if i == 0 {
            ShortcutAction::TogglePause
        } else if i == 1 {
            ShortcutAction::SeekBackward
        } else if i == 2 {
            ShortcutAction::SeekForward
        } else if i == 3 {
            ShortcutAction::VolumeUp
        } else if i == 4 {
            ShortcutAction::VolumeDown
        } else if i == 5 {
            ShortcutAction::ToggleFullscreen
        } else if i == 6 {
            ShortcutAction::ToggleMute
        } else if i == 7 {
            ShortcutAction::Screenshot
        } else if i == 8 {
            ShortcutAction::Stop
        } else if i == 9 {
            ShortcutAction::SpeedDown
        } else if i == 10 {
            ShortcutAction::SpeedUp
        } else if i == 11 {
            ShortcutAction::OpenFile
        } else if i == 12 {
            ShortcutAction::TogglePlaylist
        } else {
            ShortcutAction::OpenSettings
        }
    }

    /// The position of the action in [`ShortcutAction::ALL`].
    pub fn ordinal_of(self) -> (i: u8)
        ensures
            i as nat == self.ordinal(),
            i < 14,
    {
        match self {
            ShortcutAction::TogglePause => 0,
            ShortcutAction::SeekBackward => 1,
            ShortcutAction::SeekForward => 2,
            ShortcutAction::VolumeUp => 3,
            ShortcutAction::VolumeDown => 4,
            ShortcutAction::ToggleFullscreen => 5,
            ShortcutAction::ToggleMute => 6,
            ShortcutAction::Screenshot => 7,
            ShortcutAction::Stop => 8,
            ShortcutAction::SpeedDown => 9,
            ShortcutAction::SpeedUp => 10,
            ShortcutAction::OpenFile => 11,
            ShortcutAction::TogglePlaylist => 12,
            ShortcutAction::OpenSettings => 13,
        }
    }

    /// The action at position `i` of [`ShortcutAction::ALL`].
    pub fn from_ordinal(i: u8) -> (a: ShortcutAction)
        requires
            i < 14,
        ensures
            a == ShortcutAction::at(i as nat),
            a.ordinal() == i,
    {
        if i == 0 {
            ShortcutAction::TogglePause
        } else if i == 1 {
            ShortcutAction::SeekBackward
        } else if i == 2 {
            ShortcutAction::SeekForward
        } else if i == 3 {
            ShortcutAction::VolumeUp
        } else if i == 4 {
            ShortcutAction::VolumeDown
        } else if i == 5 {
            ShortcutAction::ToggleFullscreen
        } else if i == 6 {
            ShortcutAction::ToggleMute
        } else if i == 7 {
            ShortcutAction::Screenshot
        } else if i == 8 {
            ShortcutAction::Stop
        } else if i == 9 {
            ShortcutAction::SpeedDown
        } else if i == 10 {
            ShortcutAction::SpeedUp
        } else if i == 11 {
            ShortcutAction::OpenFile
        } else if i == 12 {
            ShortcutAction::TogglePlaylist
        } else {
            ShortcutAction::OpenSettings
        }
    }

    /// The name of the action shown in the settings.
    pub open spec fn label_text(self) -> Seq<char> {
        match self {
            ShortcutAction::TogglePause => "播放 / 暂停"@,
            ShortcutAction::SeekBackward => "快退 5 秒"@,
            ShortcutAction::SeekForward => "快进 5 秒"@,
            ShortcutAction::VolumeUp => "提高音量"@,
            ShortcutAction::VolumeDown => "降低音量"@,
            ShortcutAction::ToggleFullscreen => "切换全屏"@,
            ShortcutAction::ToggleMute => "静音 / 取消静音"@,
            ShortcutAction::Screenshot => "截图"@,
            ShortcutAction::Stop => "停止播放"@,
            ShortcutAction::SpeedDown => "降低播放速度"@,
            ShortcutAction::SpeedUp => "提高播放速度"@,
            ShortcutAction::OpenFile => "打开媒体文件"@,
            ShortcutAction::TogglePlaylist => "显示 / 隐藏播放列表"@,
            ShortcutAction::OpenSettings => "打开快捷键设置"@,
        }
    }

    /// The key binding the action has until the user changes it.
    pub open spec fn default_accelerator_text(self) -> Seq<char> {
        match self {
            ShortcutAction::TogglePause => "space"@,
            ShortcutAction::SeekBackward => "Left"@,
            ShortcutAction::SeekForward => "Right"@,
            ShortcutAction::VolumeUp => "Up"@,
            ShortcutAction::VolumeDown => "Down"@,
            ShortcutAction::ToggleFullscreen => "f"@,
            ShortcutAction::ToggleMute => "m"@,
            ShortcutAction::Screenshot => "s"@,
            ShortcutAction::Stop => "q"@,
            ShortcutAction::SpeedDown => "bracketleft"@,
            ShortcutAction::SpeedUp => "bracketright"@,
            ShortcutAction::OpenFile => "o"@,
            ShortcutAction::TogglePlaylist => "l"@,
            ShortcutAction::OpenSettings => "<Control>comma"@,
        }
    }

    /// The name of the action shown in the settings.
    pub fn label(self) -> (s: &'static str)
        ensures
            s@ == self.label_text(),
    {
        match self {
            ShortcutAction::TogglePause => "播放 / 暂停",
            ShortcutAction::SeekBackward => "快退 5 秒",
            ShortcutAction::SeekForward => "快进 5 秒",
            ShortcutAction::VolumeUp => "提高音量",
            ShortcutAction::VolumeDown => "降低音量",
            ShortcutAction::ToggleFullscreen => "切换全屏",
            ShortcutAction::ToggleMute => "静音 / 取消静音",
            ShortcutAction::Screenshot => "截图",
            ShortcutAction::Stop => "停止播放",
            ShortcutAction::SpeedDown => "降低播放速度",
            ShortcutAction::SpeedUp => "提高播放速度",
            ShortcutAction::OpenFile => "打开媒体文件",
            ShortcutAction::TogglePlaylist => "显示 / 隐藏播放列表",
            ShortcutAction::OpenSettings => "打开快捷键设置",
        }
    }

    /// The key binding the action has until the user changes it.
    pub fn default_accelerator(self) -> (s: &'static str)
        ensures
            s@ == self.default_accelerator_text(),
    {
        match self {
            ShortcutAction::TogglePause => "space",
            ShortcutAction::SeekBackward => "Left",
            ShortcutAction::SeekForward => "Right",
            ShortcutAction::VolumeUp => "Up",
            ShortcutAction::VolumeDown => "Down",
            ShortcutAction::ToggleFullscreen => "f",
            ShortcutAction::ToggleMute => "m",
            ShortcutAction::Screenshot => "s",
            ShortcutAction::Stop => "q",
            ShortcutAction::SpeedDown => "bracketleft",
            ShortcutAction::SpeedUp => "bracketright",
            ShortcutAction::OpenFile => "o",
            ShortcutAction::TogglePlaylist => "l",
            ShortcutAction::OpenSettings => "<Control>comma",
        }
    }
}

/// No two actions share a default key binding.
pub proof fn lemma_default_accelerators_distinct(a: ShortcutAction, b: ShortcutAction)
    requires
        a != b,
    ensures
        a.default_accelerator_text() != b.default_accelerator_text(),
{
    reveal_strlit("space");
    reveal_strlit("Left");
    reveal_strlit("Right");
    reveal_strlit("Up");
    reveal_strlit("Down");
    reveal_strlit("f");
    reveal_strlit("m");
    reveal_strlit("s");
    reveal_strlit("q");
    reveal_strlit("bracketleft");
    reveal_strlit("bracketright");
    reveal_strlit("o");
    reveal_strlit("l");
    reveal_strlit("<Control>comma");
    let x = a.default_accelerator_text();
    let y = b.default_accelerator_text();
    if x == y {
        assert(x.len() == y.len());
        assert(x[0] == y[0]);
        if x.len() > 1 {
            assert(x[1] == y[1]);
        }
        if x.len() > 4 {
            assert(x[4] == y[4]);
        }
        if x.len() > 8 {
            assert(x[8] == y[8]);
        }
        if x.len() > 9 {
            assert(x[9] == y[9]);
        }
    }
}

/// Sorted by action, each action at most once.
pub open spec fn strictly_ordered(entries: Seq<(ShortcutAction, Option<String>)>) -> bool {
    forall|i: int, j: int|
        0 <= i < j < entries.len() ==> #[trigger] entries[i].0.ordinal() < #[trigger] entries[j].0.ordinal()
}

/// The binding recorded for `action` in `entries`: none where the action is
/// absent, otherwise the binding, which may be "unbound".
pub open spec fn entry_for(entries: Seq<(ShortcutAction, Option<String>)>, action: ShortcutAction) -> Option<
    Option<String>,
>
    decreases entries.len(),
{
    if entries.len() == 0 {
        None
    } else if entries.last().0 == action {
        Some(entries.last().1)
    } else {
        entry_for(entries.drop_last(), action)
    }
}

proof fn lemma_entry_for_index(entries: Seq<(ShortcutAction, Option<String>)>, action: ShortcutAction)
    requires
        strictly_ordered(entries),
    ensures
        forall|i: int|
            0 <= i < entries.len() && entries[i].0 == action ==> entry_for(entries, action) == Some(
                #[trigger] entries[i].1,
            ),
        (forall|i: int| 0 <= i < entries.len() ==> #[trigger] entries[i].0 != action) ==> entry_for(
            entries,
            action,
        ) is None,
    decreases entries.len(),
{
    if entries.len() > 0 {
        let rest = entries.drop_last();
        assert(strictly_ordered(rest)) by {
            assert forall|i: int, j: int| 0 <= i < j < rest.len() implies #[trigger] rest[i].0.ordinal()
                < #[trigger] rest[j].0.ordinal() by {
                assert(rest[i] == entries[i]);
                assert(rest[j] == entries[j]);
            }
        }
        lemma_entry_for_index(rest, action);
        assert forall|i: int| 0 <= i < entries.len() && entries[i].0 == action implies entry_for(
            entries,
            action,
        ) == Some(#[trigger] entries[i].1) by {
            if i < entries.len() - 1 {
                assert(rest[i] == entries[i]);
                assert(entries[i].0.ordinal() < entries[entries.len() - 1].0.ordinal());
            }
        }
        if forall|i: int| 0 <= i < entries.len() ==> #[trigger] entries[i].0 != action {
            assert(entries[entries.len() - 1].0 != action);
            assert forall|i: int| 0 <= i < rest.len() implies #[trigger] rest[i].0 != action by {
                assert(rest[i] == entries[i]);
            }
        }
    }
}

/// The entries `after` arise from placing `(action, accelerator)` at `i` in the
/// ordered `before`: replacing the entry of `action` there, or inserting it
/// before the first entry of a later action.
pub open spec fn placed(
    before: Seq<(ShortcutAction, Option<String>)>,
    after: Seq<(ShortcutAction, Option<String>)>,
    i: int,
    replace: bool,
    action: ShortcutAction,
    accelerator: Option<String>,
) -> bool {
    &&& strictly_ordered(before)
    &&& 0 <= i <= before.len()
    &&& forall|j: int| 0 <= j < i ==> #[trigger] before[j].0.ordinal() < action.ordinal()
    &&& i < before.len() ==> before[i].0.ordinal() >= action.ordinal()
    &&& replace == (i < before.len() && before[i].0 == action)
    &&& after == if replace {
        before.update(i, (action, accelerator))
    } else {
        before.insert(i, (action, accelerator))
    }
}

proof fn lemma_ordinal_injective(a: ShortcutAction, b: ShortcutAction)
    ensures
        a.ordinal() == b.ordinal() ==> a == b,
{
}

proof fn lemma_placed_keeps_order(
    before: Seq<(ShortcutAction, Option<String>)>,
    after: Seq<(ShortcutAction, Option<String>)>,
    i: int,
    replace: bool,
    action: ShortcutAction,
    accelerator: Option<String>,
)
    requires
        placed(before, after, i, replace, action, accelerator),
    ensures
        strictly_ordered(after),
{
    let key = action.ordinal();

    assert forall|x: int, y: int| 0 <= x < y < after.len() implies #[trigger] after[x].0.ordinal()
        < #[trigger] after[y].0.ordinal() by {
        if !replace {
            if y < i {
                assert(after[x] == before[x] && after[y] == before[y]);
            } else if y == i {
                assert(after[x] == before[x]);
            } else if x == i {
                assert(after[y] == before[y - 1]);
                if i < before.len() {
                    assert(before[i].0.ordinal() >= key);
                    lemma_ordinal_injective(before[i].0, action);
                    assert(before[i].0.ordinal() <= before[y - 1].0.ordinal());
                }
            } else if x < i {
                assert(after[x] == before[x] && after[y] == before[y - 1]);
            } else {
                assert(after[x] == before[x - 1] && after[y] == before[y - 1]);
            }
        } else {
            if x != i && y != i {
                assert(after[x] == before[x] && after[y] == before[y]);
            } else if x == i {
                assert(after[y] == before[y]);
            } else {
                assert(after[x] == before[x]);
            }
        }
    }
}

proof fn lemma_placed_other(
    before: Seq<(ShortcutAction, Option<String>)>,
    after: Seq<(ShortcutAction, Option<String>)>,
    i: int,
    replace: bool,
    action: ShortcutAction,
    accelerator: Option<String>,
    a: ShortcutAction,
)
    requires
        placed(before, after, i, replace, action, accelerator),
        strictly_ordered(after),
        a != action,
    ensures
        entry_for(after, a) == entry_for(before, a),
{
    lemma_entry_for_index(before, a);
    lemma_entry_for_index(after, a);
    if exists|j: int| 0 <= j < before.len() && before[j].0 == a {
        let j = choose|j: int| 0 <= j < before.len() && before[j].0 == a;
        assert(entry_for(before, a) == Some(before[j].1));
        let k = if replace || j < i { j } else { j + 1 };
        assert(after[k] == before[j]);
        assert(entry_for(after, a) == Some(after[k].1));
    } else {
        assert forall|j: int| 0 <= j < after.len() implies #[trigger] after[j].0 != a by {
            if j != i {
                let k = if replace || j < i { j } else { j - 1 };
                assert(after[j] == before[k]);
            }
        }
    }
}

proof fn lemma_placed_entries(
    before: Seq<(ShortcutAction, Option<String>)>,
    after: Seq<(ShortcutAction, Option<String>)>,
    i: int,
    replace: bool,
    action: ShortcutAction,
    accelerator: Option<String>,
)
    requires
        placed(before, after, i, replace, action, accelerator),
    ensures
        entry_for(after, action) == Some(accelerator),
        forall|a: ShortcutAction| a != action ==> #[trigger] entry_for(after, a) == entry_for(before, a),
{
    lemma_placed_keeps_order(before, after, i, replace, action, accelerator);
    lemma_entry_for_index(after, action);
    assert(after[i] == (action, accelerator));
    assert(entry_for(after, action) == Some(after[i].1));
    assert forall|a: ShortcutAction| a != action implies #[trigger] entry_for(after, a) == entry_for(before, a) by {
        lemma_placed_other(before, after, i, replace, action, accelerator, a);
    }
}

/// The key bindings the user chose, one optional binding per action.
#[derive(Debug)]
pub struct ShortcutSettings {
    bindings: Vec<(ShortcutAction, Option<String>)>,
}

impl ShortcutSettings {
    #[verifier::type_invariant]
    spec fn ordered(self) -> bool {
        strictly_ordered(self.bindings@)
    }

    /// The binding recorded for `action`: none where the settings do not
    /// mention the action, otherwise the binding, which may be "unbound".
    pub closed spec fn entry(self, action: ShortcutAction) -> Option<Option<String>> {
        entry_for(self.bindings@, action)
    }

    /// Every action is bound to its default key binding.
    pub open spec fn is_default(self) -> bool {
        forall|a: ShortcutAction|
            #[trigger] self.entry(a) matches Some(Some(s)) && s@ == a.default_accelerator_text()
    }

    /// Settings that mention no action.
    pub fn empty() -> (s: Self)
        ensures
            forall|a: ShortcutAction| #[trigger] s.entry(a) is None,
    {
        ShortcutSettings { bindings: Vec::new() }
    }

    /// The binding of `action`, if the action is bound.
    pub fn binding(&self, action: ShortcutAction) -> (b: Option<&str>)
        ensures
            match b {
                Some(s) => self.entry(action) matches Some(Some(t)) && t@ == s@,
                None => !(self.entry(action) matches Some(Some(_))),
            },
    {
        proof {
            use_type_invariant(self);
            lemma_entry_for_index(self.bindings@, action);
        }
        let mut i: usize = 0;
        while i < self.bindings.len()
            invariant
                i <= self.bindings@.len(),
                forall|j: int| 0 <= j < i ==> #[trigger] self.bindings@[j].0 != action,
            decreases self.bindings@.len() - i,
        {
            if self.bindings[i].0 == action {
                proof {
                    use_type_invariant(self);
                    lemma_entry_for_index(self.bindings@, action);
                    assert(entry_for(self.bindings@, action) == Some(self.bindings@[i as int].1));
                }
                return match &self.bindings[i].1 {
                    Some(s) => Some(s.as_str()),
                    None => None,
                };
            }
            i = i + 1;
        }
        None
    }

    /// Records `accelerator` as the binding of `action` (none unbinds it); the
    /// other bindings stay as they were.
    pub fn set_binding(&mut self, action: ShortcutAction, accelerator: Option<String>)
        ensures
            final(self).entry(action) == Some(accelerator),
            forall|a: ShortcutAction| a != action ==> #[trigger] final(self).entry(a) == old(self).entry(a),
    {
        proof {
            use_type_invariant(&*self);
        }
        let ghost before = self.bindings@;
        let key = action.ordinal_of();
        let mut i: usize = 0;
        while i < self.bindings.len()
            invariant
                i <= self.bindings@.len(),
                self.bindings@ == before,
                strictly_ordered(before),
                key as nat == action.ordinal(),
                forall|j: int| 0 <= j < i ==> #[trigger] before[j].0.ordinal() < key,
            ensures
                i <= before.len(),
                self.bindings@ == before,
                forall|j: int| 0 <= j < i ==> #[trigger] before[j].0.ordinal() < key,
                i < before.len() ==> before[i as int].0.ordinal() >= key,
            decreases self.bindings@.len() - i,
        {
            if self.bindings[i].0.ordinal_of() >= key {
                break;
            }
            i = i + 1;
        }
        let replace = i < self.bindings.len() && self.bindings[i].0 == action;
        let mut list: Vec<(ShortcutAction, Option<String>)> = Vec::new();
        std::mem::swap(&mut list, &mut self.bindings);
        if replace {
            list.set(i, (action, accelerator));
        } else {
            list.insert(i, (action, accelerator));
        }
        proof {
            lemma_placed_keeps_order(before, list@, i as int, replace, action, accelerator);
            lemma_placed_entries(before, list@, i as int, replace, action, accelerator);
        }
        self.bindings = list;
    }

    /// Adds the default binding of every action the settings do not mention;
    /// recorded bindings, unbound ones included, stay.
    pub fn fill_missing_defaults(&mut self)
        ensures
            fill_effect(*old(self), *final(self)),
    {
        let ghost start = *self;
        let mut k: u8 = 0;
        while k < 14
            invariant
                k <= 14,
                forall|a: ShortcutAction|
                    #[trigger] start.entry(a) is Some ==> self.entry(a) == start.entry(a),
                forall|a: ShortcutAction|
                    start.entry(a) is None && a.ordinal() < k ==> (#[trigger] self.entry(a) matches Some(
                        Some(s),
                    ) && s@ == a.default_accelerator_text()),
                forall|a: ShortcutAction|
                    start.entry(a) is None && a.ordinal() >= k ==> #[trigger] self.entry(a) is None,
            decreases 14 - k,
        {
            let action = ShortcutAction::from_ordinal(k);
            let present = self.has_entry(action);
            if !present {
                self.set_binding(action, Some(action.default_accelerator().to_string()));
            }
            k = k + 1;
        }
    }

    /// Whether the settings mention `action`.
    fn has_entry(&self, action: ShortcutAction) -> (r: bool)
        ensures
            r == self.entry(action) is Some,
    {
        proof {
            use_type_invariant(self);
            lemma_entry_for_index(self.bindings@, action);
        }
        let mut i: usize = 0;
        while i < self.bindings.len()
            invariant
                i <= self.bindings@.len(),
                forall|j: int| 0 <= j < i ==> #[trigger] self.bindings@[j].0 != action,
            decreases self.bindings@.len() - i,
        {
            if self.bindings[i].0 == action {
                proof {
                    use_type_invariant(self);
                    lemma_entry_for_index(self.bindings@, action);
                    assert(entry_for(self.bindings@, action) == Some(self.bindings@[i as int].1));
                }
                return true;
            }
            i = i + 1;
        }
        false
    }

    /// Restores the default binding of every action.
    pub fn reset(&mut self)
        ensures
            final(self).is_default(),
    {
        *self = ShortcutSettings::default();
    }

    /// The recorded bindings, ordered by action as in [`ShortcutAction::ALL`].
    pub fn entries(&self) -> (list: Vec<(ShortcutAction, Option<String>)>)
        ensures
            forall|a: ShortcutAction| #[trigger] self.entry(a) == entry_for(list@, a),
            strictly_ordered(list@),
    {
        proof {
            use_type_invariant(self);
        }
        let mut list: Vec<(ShortcutAction, Option<String>)> = Vec::new();
        let mut i: usize = 0;
        while i < self.bindings.len()
            invariant
                i <= self.bindings@.len(),
                strictly_ordered(self.bindings@),
                list@ == self.bindings@.subrange(0, i as int),
            decreases self.bindings@.len() - i,
        {
            let entry = &self.bindings[i];
            let copy = match &entry.1 {
                Some(s) => Some(s.clone()),
                None => None,
            };
            list.push((entry.0, copy));
            assert(list@ =~= self.bindings@.subrange(0, i + 1));
            i = i + 1;
        }
        assert(list@ =~= self.bindings@);
        list
    }

    /// Settings built from recorded bindings in the order given; a later
    /// binding of an action replaces an earlier one.
    pub fn from_entries(list: Vec<(ShortcutAction, Option<String>)>) -> (s: Self)
        ensures
            forall|a: ShortcutAction| #[trigger] s.entry(a) == last_binding(list@, a),
    {
        let mut s = ShortcutSettings::empty();
        let ghost all = list@;
        let mut i: usize = 0;
        while i < list.len()
            invariant
                i <= all.len(),
                list@ == all,
                forall|a: ShortcutAction| #[trigger] s.entry(a) == last_binding(all.subrange(0, i as int), a),
            decreases all.len() - i,
        {
            let action = list[i].0;
            let accelerator = match &list[i].1 {
                Some(t) => Some(t.clone()),
                None => None,
            };
            let ghost prefix = all.subrange(0, i as int);
            s.set_binding(action, accelerator);
            proof {
                let longer = all.subrange(0, i + 1);
                assert(longer.drop_last() =~= prefix);
                assert(longer.last() == all[i as int]);
            }
            i = i + 1;
        }
        assert(all.subrange(0, all.len() as int) =~= all);
        s
    }
}

/// The binding of `action` that a list records last, if any.
pub open spec fn last_binding(list: Seq<(ShortcutAction, Option<String>)>, action: ShortcutAction) -> Option<
    Option<String>,
>
    decreases list.len(),
{
    if list.len() == 0 {
        None
    } else if list.last().0 == action {
        Some(list.last().1)
    } else {
        last_binding(list.drop_last(), action)
    }
}

proof fn lemma_last_binding_is_entry(list: Seq<(ShortcutAction, Option<String>)>, action: ShortcutAction)
    ensures
        last_binding(list, action) == entry_for(list, action),
    decreases list.len(),
{
    if list.len() > 0 {
        lemma_last_binding_is_entry(list.drop_last(), action);
    }
}

/// Settings rebuilt from the bindings they list are the same settings: every
/// action keeps its binding, an unbound one included.
pub proof fn lemma_entries_round_trip(
    settings: ShortcutSettings,
    list: Seq<(ShortcutAction, Option<String>)>,
    rebuilt: ShortcutSettings,
)
    requires
        forall|a: ShortcutAction| #[trigger] settings.entry(a) == entry_for(list, a),
        forall|a: ShortcutAction| #[trigger] rebuilt.entry(a) == last_binding(list, a),
    ensures
        forall|a: ShortcutAction| #[trigger] rebuilt.entry(a) == settings.entry(a),
{
    assert forall|a: ShortcutAction| #[trigger] rebuilt.entry(a) == settings.entry(a) by {
        lemma_last_binding_is_entry(list, a);
    }
}

/// Filling in defaults turns `before` into `after`: recorded bindings, unbound
/// ones included, stay, and every action not recorded gets its default.
pub open spec fn fill_effect(before: ShortcutSettings, after: ShortcutSettings) -> bool {
    &&& forall|a: ShortcutAction| #[trigger] after.entry(a) == match before.entry(a) {
        Some(b) => Some(b),
        None => after.entry(a),
    }
    &&& forall|a: ShortcutAction|
        before.entry(a) is None ==> (#[trigger] after.entry(a) matches Some(Some(s)) && s@
            == a.default_accelerator_text())
}

/// Whether the settings record a binding, perhaps "unbound", for every action:
/// true of the defaults, and kept by `set_binding` and `reset`.
pub open spec fn records_every_action(settings: ShortcutSettings) -> bool {
    forall|a: ShortcutAction| #[trigger] settings.entry(a) is Some
}

/// The default settings record every action.
pub proof fn lemma_defaults_record_every_action(settings: ShortcutSettings)
    requires
        settings.is_default(),
    ensures
        records_every_action(settings),
{
    assert forall|a: ShortcutAction| #[trigger] settings.entry(a) is Some by {
        assert(settings.entry(a) matches Some(Some(s)) && s@ == a.default_accelerator_text());
    }
}

/// Settings that record every action, stored as their list of bindings and
/// loaded back (rebuilt from the list, then missing actions filled with their
/// defaults), have every binding they had, unbound ones included.  Settings
/// that record nothing load as the defaults.
pub proof fn lemma_saved_settings_load_back(
    settings: ShortcutSettings,
    list: Seq<(ShortcutAction, Option<String>)>,
    rebuilt: ShortcutSettings,
    loaded: ShortcutSettings,
)
    requires
        forall|a: ShortcutAction| #[trigger] settings.entry(a) == entry_for(list, a),
        forall|a: ShortcutAction| #[trigger] rebuilt.entry(a) == last_binding(list, a),
        fill_effect(rebuilt, loaded),
    ensures
        records_every_action(settings) ==> forall|a: ShortcutAction| #[trigger] loaded.entry(a)
            == settings.entry(a),
        (forall|a: ShortcutAction| #[trigger] settings.entry(a) is None) ==> loaded.is_default(),
{
    lemma_entries_round_trip(settings, list, rebuilt);
    if records_every_action(settings) {
        assert forall|a: ShortcutAction| #[trigger] loaded.entry(a) == settings.entry(a) by {
            assert(rebuilt.entry(a) == settings.entry(a));
            assert(settings.entry(a) is Some);
        }
    }
    if forall|a: ShortcutAction| #[trigger] settings.entry(a) is None {
        assert forall|a: ShortcutAction|
            #[trigger] loaded.entry(a) matches Some(Some(s)) && s@ == a.default_accelerator_text() by {
            assert(rebuilt.entry(a) == settings.entry(a));
            assert(rebuilt.entry(a) is None);
        }
    }
}

/// The labels of the actions are different from one another and none is empty,
/// so a label names its action.
pub proof fn lemma_labels_distinct(a: ShortcutAction, b: ShortcutAction)
    ensures
        a.label_text().len() > 0,
        a != b ==> a.label_text() != b.label_text(),
{
    reveal_strlit("播放 / 暂停");
    reveal_strlit("快退 5 秒");
    reveal_strlit("快进 5 秒");
    reveal_strlit("提高音量");
    reveal_strlit("降低音量");
    reveal_strlit("切换全屏");
    reveal_strlit("静音 / 取消静音");
    reveal_strlit("截图");
    reveal_strlit("停止播放");
    reveal_strlit("降低播放速度");
    reveal_strlit("提高播放速度");
    reveal_strlit("打开媒体文件");
    reveal_strlit("显示 / 隐藏播放列表");
    reveal_strlit("打开快捷键设置");
    let x = a.label_text();
    let y = b.label_text();
    if a != b && x == y {
        assert(x.len() == y.len());
        assert(x[0] == y[0]);
        if x.len() > 1 {
            assert(x[1] == y[1]);
        }
        if x.len() > 2 {
            assert(x[2] == y[2]);
        }
        if x.len() > 3 {
            assert(x[3] == y[3]);
        }
    }
}

impl ShortcutSettings {
    /// Where the shortcut settings are stored: `shortcuts.json` in the
    /// configuration directory.
    pub fn path(paths: &XdgPaths) -> (p: String)
        ensures
            p@ == crate::path::join(paths.config_dir@, "shortcuts.json"@),
    {
        join_path(paths.config_dir.as_str(), "shortcuts.json")
    }
}

/// The first action, in the order of [`ShortcutAction::ALL`], for which
/// `matches` holds.
pub open spec fn first_match(matches: Seq<bool>, from: nat) -> Option<ShortcutAction>
    decreases 14 - from,
{
    if from >= 14 || from >= matches.len() {
        None
    } else if matches[from as int] {
        Some(ShortcutAction::at(from))
    } else {
        first_match(matches, from + 1)
    }
}

/// The first action whose binding matches, given for each action of
/// [`ShortcutAction::ALL`] whether its binding matches the pressed keys.
pub fn action_for_keys(matches: &Vec<bool>) -> (a: Option<ShortcutAction>)
    ensures
        a == first_match(matches@, 0),
{
    let mut k: u8 = 0;
    while k < 14
        invariant
            k <= 14,
            first_match(matches@, 0) == first_match(matches@, k as nat),
        decreases 14 - k,
    {
        if (k as usize) >= matches.len() {
            return None;
        }
        if matches[k as usize] {
            return Some(ShortcutAction::from_ordinal(k));
        }
        k = k + 1;
    }
    None
}

/// The action other than `action` that already uses a key combination, given
/// for each action of [`ShortcutAction::ALL`] whether its binding equals it.
pub fn conflicting_action(action: ShortcutAction, same_binding: &Vec<bool>) -> (a: Option<ShortcutAction>)
    ensures
        a == first_match(others_of(action, same_binding@), 0),
{
    let mut others: Vec<bool> = Vec::new();
    let mut k: usize = 0;
    let n = same_binding.len();
    while k < n
        invariant
            n == same_binding@.len(),
            k <= n,
            others@ == others_of(action, same_binding@).subrange(0, k as int),
        decreases n - k,
    {
        let is_self = k < 14 && action.ordinal_of() as usize == k;
        others.push(same_binding[k] && !is_self);
        assert(others@ =~= others_of(action, same_binding@).subrange(0, k + 1));
        k = k + 1;
    }
    assert(others@ =~= others_of(action, same_binding@));
    action_for_keys(&others)
}

/// `same_binding` with the entry of `action` itself cleared.
pub open spec fn others_of(action: ShortcutAction, same_binding: Seq<bool>) -> Seq<bool> {
    Seq::new(same_binding.len(), |i: int| same_binding[i] && i != action.ordinal())
}

impl Default for ShortcutSettings {
    fn default() -> (s: Self)
        ensures
            s.is_default(),
    {
        let mut s = ShortcutSettings::empty();
        s.fill_missing_defaults();
        s
    }
}

/// The default settings bind every action, and no two actions to the same key.
pub proof fn lemma_defaults_cover_every_action_without_conflicts(
    settings: ShortcutSettings,
    a: ShortcutAction,
    b: ShortcutAction,
)
    requires
        settings.is_default(),
        a != b,
    ensures
        settings.entry(a) matches Some(Some(x)) && settings.entry(b) matches Some(Some(y)) && x@ != y@,
{
    lemma_default_accelerators_distinct(a, b);
    assert(settings.entry(a) matches Some(Some(s)) && s@ == a.default_accelerator_text());
    assert(settings.entry(b) matches Some(Some(s)) && s@ == b.default_accelerator_text());
}

} // verus!
