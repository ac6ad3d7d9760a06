use vstd::prelude::*;
use crate::components::SpriteHandle;

verus! {

/// The images of the sprite sheet, in sheet order.
#[derive(Clone, Copy, Debug, PartialEq, Eq, Structural)]
pub enum SpriteName {
    DayBackground,
    NightBackground,
    DownPipe,
    UpPipe,
    Ground,
    Floppy,
    TapTapDialogue,
    PlayButton,
    LeaderboardButton,
    GetReadyText,
    FlappyBirdText,
}

/// Position of each image in the sprite sheet.
pub open spec fn sheet_index(n: SpriteName) -> usize {
    match n {
        SpriteName::DayBackground => 0,
        SpriteName::NightBackground => 1,
        SpriteName::DownPipe => 2,
        SpriteName::UpPipe => 3,
        SpriteName::Ground => 4,
        SpriteName::Floppy => 5,
        SpriteName::TapTapDialogue => 6,
        SpriteName::PlayButton => 7,
        SpriteName::LeaderboardButton => 8,
        SpriteName::GetReadyText => 9,
        SpriteName::FlappyBirdText => 10,
    }
}

/// The handle of the first entry named `n`, if any.
pub open spec fn lookup(entries: Seq<(SpriteName, SpriteHandle)>, n: SpriteName) -> Option<
    SpriteHandle,
>
    decreases entries.len(),
{
    if entries.len() == 0 {
        None
    } else if entries[0].0 == n {
        Some(entries[0].1)
    } else {
        lookup(entries.drop_first(), n)
    }
}

/// The named sprites, resolved once when the game starts and read-only after.
pub struct SpriteTable {
    entries: Vec<(SpriteName, SpriteHandle)>,
}

impl View for SpriteTable {
    type V = Seq<(SpriteName, SpriteHandle)>;

    closed spec fn view(&self) -> Seq<(SpriteName, SpriteHandle)> {
        self.entries@
    }
}

impl SpriteTable {
    /// The table resolves every sprite name to its image of the sheet.
    pub open spec fn complete(&self) -> bool {
        forall|n: SpriteName|
            lookup(self@, n) == Some(SpriteHandle { sprite_number: sheet_index(n) })
    }

    /// The table of every image of the sprite sheet.
    pub fn load_sprites() -> (r: SpriteTable)
        ensures
            r.complete(),
    {
        let mut entries: Vec<(SpriteName, SpriteHandle)> = Vec::new();
        entries.push((SpriteName::DayBackground, SpriteHandle { sprite_number: 0 }));
        entries.push((SpriteName::NightBackground, SpriteHandle { sprite_number: 1 }));
        entries.push((SpriteName::DownPipe, SpriteHandle { sprite_number: 2 }));
        entries.push((SpriteName::UpPipe, SpriteHandle { sprite_number: 3 }));
        entries.push((SpriteName::Ground, SpriteHandle { sprite_number: 4 }));
        entries.push((SpriteName::Floppy, SpriteHandle { sprite_number: 5 }));
        entries.push((SpriteName::TapTapDialogue, SpriteHandle { sprite_number: 6 }));
        entries.push((SpriteName::PlayButton, SpriteHandle { sprite_number: 7 }));
        entries.push((SpriteName::LeaderboardButton, SpriteHandle { sprite_number: 8 }));
        entries.push((SpriteName::GetReadyText, SpriteHandle { sprite_number: 9 }));
        entries.push((SpriteName::FlappyBirdText, SpriteHandle { sprite_number: 10 }));
        let r = SpriteTable { entries };
        proof {
            let s = r@;
            assert forall|n: SpriteName|
                lookup(s, n) == Some(SpriteHandle { sprite_number: sheet_index(n) }) by {
                reveal_with_fuel(lookup, 12);
                let s1 = s.drop_first();
                let s2 = s1.drop_first();
                let s3 = s2.drop_first();
                let s4 = s3.drop_first();
                let s5 = s4.drop_first();
                let s6 = s5.drop_first();
                let s7 = s6.drop_first();
                let s8 = s7.drop_first();
                let s9 = s8.drop_first();
                let s10 = s9.drop_first();
                assert(s10[0].0 == SpriteName::FlappyBirdText);
            }
        }
        r
    }

    /// The handle of a sprite.
    pub fn get(&self, name: SpriteName) -> (r: Option<SpriteHandle>)
        ensures
            r == lookup(self@, name),
            self.complete() ==> r == Some(SpriteHandle { sprite_number: sheet_index(name) }),
    {
        let mut i: usize = 0;
        assert(self@.skip(0) =~= self@);
        while i < self.entries.len()
            invariant
                i <= self@.len(),
                lookup(self@, name) == lookup(self@.skip(i as int), name),
            decreases self@.len() - i,
        {
            proof {
                assert(self@.skip(i as int).drop_first() =~= self@.skip(i as int + 1));
            }
            if self.entries[i].0 == name {
                return Some(self.entries[i].1);
            }
            i = i + 1;
        }
        None
    }
}

} // verus!
