//! The build menu: when it is shown, and what a click on it builds.

use vstd::prelude::*;
use bevy::asset::HandleUntyped;
use bevy::ecs::entity::Entity;
use crate::assets::GameAssets;
use crate::commands::{Command, CommandView, Commands, TowerButton, TowerButtonView};
use crate::math::Point;
use crate::tower::{spawn_tower, tower_request};
use crate::tower_type::TowerType;

verus! {

/// What the engine reports of a button: whether the pointer is on it, and
/// whether it was clicked.
#[derive(Clone, Copy, Debug, PartialEq, Eq, Structural)]
pub enum Interaction {
    Clicked,
    Hovered,
    Idle,
}

/// A place on which a tower can be built, and whether the player has
/// selected it.
pub struct Pad {
    pub entity: Entity,
    pub selected: bool,
    pub position: Point,
}

/// The kinds of tower in the order of their buttons.
pub open spec fn button_order() -> Seq<TowerType> {
    seq![TowerType::Tomato, TowerType::Potato, TowerType::Cabbage]
}

/// What a build click of the given kind turns one pad into: nothing while
/// the pad is not selected, else the removal of the pad with all below it
/// and a tower of that kind in its place.
pub open spec fn conversion(
    pad: Pad,
    tower_type: TowerType,
    assets: GameAssets,
) -> Seq<CommandView> {
    if pad.selected {
        seq![
            CommandView::DespawnRecursive { entity: pad.entity },
            tower_request(pad.position, tower_type, assets),
        ]
    } else {
        Seq::empty()
    }
}

/// What a build click of the given kind asks of the engine: the conversion
/// of every pad, in the order of the pads.
pub open spec fn conversions(
    pads: Seq<Pad>,
    tower_type: TowerType,
    assets: GameAssets,
) -> Seq<CommandView>
    decreases pads.len(),
{
    if pads.len() == 0 {
        Seq::empty()
    } else {
        conversions(pads.drop_last(), tower_type, assets) + conversion(
            pads.last(),
            tower_type,
            assets,
        )
    }
}

/// What one change of a button asks of the engine: a click converts the
/// pads, anything else does nothing.
pub open spec fn click(
    interaction: (Interaction, TowerType),
    pads: Seq<Pad>,
    assets: GameAssets,
) -> Seq<CommandView> {
    if interaction.0 is Clicked {
        conversions(pads, interaction.1, assets)
    } else {
        Seq::empty()
    }
}

/// What the changes of the buttons in one tick ask of the engine, change by
/// change in their order.
pub open spec fn placements(
    interactions: Seq<(Interaction, TowerType)>,
    pads: Seq<Pad>,
    assets: GameAssets,
) -> Seq<CommandView>
    decreases interactions.len(),
{
    if interactions.len() == 0 {
        Seq::empty()
    } else {
        placements(interactions.drop_last(), pads, assets) + click(
            interactions.last(),
            pads,
            assets,
        )
    }
}

/// The file that holds the icon of the button of the given kind.
pub open spec fn icon_file(tower_type: TowerType) -> Seq<char> {
    match tower_type {
        TowerType::Tomato => "tomato_tower.png"@,
        TowerType::Potato => "potato_tower.png"@,
        TowerType::Cabbage => "cabbage_tower.png"@,
    }
}

/// Whether anything is selected.
pub open spec fn any_selected(selections: Seq<bool>) -> bool {
    exists|i: int| 0 <= i < selections.len() && selections[i]
}

/// The buttons of the build menu: one for each kind of tower, in
/// [`button_order`], each with the icon at its place in `icons`.
pub open spec fn menu_buttons(icons: Seq<HandleUntyped>) -> Seq<TowerButtonView> {
    Seq::new(3, |i: int| TowerButtonView { icon: icons[i], tower_type: button_order()[i] })
}

/// What the menu asks of the engine in one tick: to go where it is shown and
/// nothing is selected, to appear where it is not shown and something is
/// selected, and nothing otherwise.
pub open spec fn menu_requests(
    selected: bool,
    root: Seq<Entity>,
    icons: Seq<HandleUntyped>,
) -> Seq<CommandView> {
    if root.len() == 1 && !selected {
        seq![CommandView::DespawnRecursive { entity: root[0] }]
    } else if root.len() == 0 && selected {
        seq![CommandView::SpawnUi { buttons: menu_buttons(icons) }]
    } else {
        Seq::empty()
    }
}

/// How many of the pads are selected.
pub open spec fn selected_pads(pads: Seq<Pad>) -> nat
    decreases pads.len(),
{
    if pads.len() == 0 {
        0
    } else if pads.last().selected {
        selected_pads(pads.drop_last()) + 1
    } else {
        selected_pads(pads.drop_last())
    }
}

/// How many of the requests remove an entity.
pub open spec fn despawns(requests: Seq<CommandView>) -> nat
    decreases requests.len(),
{
    if requests.len() == 0 {
        0
    } else if requests.last() is DespawnRecursive {
        despawns(requests.drop_last()) + 1
    } else {
        despawns(requests.drop_last())
    }
}

/// How many of the requests spawn a tower of the given kind.
pub open spec fn tower_spawns(requests: Seq<CommandView>, tower_type: TowerType) -> nat
    decreases requests.len(),
{
    if requests.len() == 0 {
        0
    } else if requests.last() matches CommandView::SpawnTower { tower_type: kind, .. }
        && kind == tower_type {
        tower_spawns(requests.drop_last(), tower_type) + 1
    } else {
        tower_spawns(requests.drop_last(), tower_type)
    }
}

/// How many of the requests spawn a build menu.
pub open spec fn menu_spawns(requests: Seq<CommandView>) -> nat
    decreases requests.len(),
{
    if requests.len() == 0 {
        0
    } else if requests.last() is SpawnUi {
        menu_spawns(requests.drop_last()) + 1
    } else {
        menu_spawns(requests.drop_last())
    }
}

/// How many of the menus in `root` none of the requests removes.
pub open spec fn menus_kept(root: Seq<Entity>, requests: Seq<CommandView>) -> nat
    decreases root.len(),
{
    if root.len() == 0 {
        0
    } else if requests.contains(CommandView::DespawnRecursive { entity: root.last() }) {
        menus_kept(root.drop_last(), requests)
    } else {
        menus_kept(root.drop_last(), requests) + 1
    }
}

/// How many menus exist once the engine has carried out the requests: those
/// of `root` that were kept and those that were spawned.
pub open spec fn menus_after(root: Seq<Entity>, requests: Seq<CommandView>) -> nat {
    menus_kept(root, requests) + menu_spawns(requests)
}

/// A build click converts every selected pad and nothing else. With `n`
/// pads selected, one click of a kind asks for `n` removals and `n` towers
/// of that kind and for nothing more, and each selected pad has its own
/// removal and a tower at its position among the requests, so that no
/// selected pad is left as it was.
pub proof fn lemma_click_converts_selected_pads(
    pads: Seq<Pad>,
    tower_type: TowerType,
    assets: GameAssets,
)
    ensures
        placements(seq![(Interaction::Clicked, tower_type)], pads, assets) == conversions(
            pads,
            tower_type,
            assets,
        ),
        conversions(pads, tower_type, assets).len() == 2 * selected_pads(pads),
        despawns(conversions(pads, tower_type, assets)) == selected_pads(pads),
        tower_spawns(conversions(pads, tower_type, assets), tower_type) == selected_pads(pads),
        forall|other: TowerType|
            other != tower_type ==> #[trigger] tower_spawns(
                conversions(pads, tower_type, assets),
                other,
            ) == 0,
        forall|i: int|
            0 <= i < pads.len() && (#[trigger] pads[i]).selected ==> {
                &&& conversions(pads, tower_type, assets).contains(
                    CommandView::DespawnRecursive { entity: pads[i].entity },
                )
                &&& conversions(pads, tower_type, assets).contains(
                    tower_request(pads[i].position, tower_type, assets),
                )
            },
    decreases pads.len(),
{
    let one_click = seq![(Interaction::Clicked, tower_type)];
    assert(placements(one_click.drop_last(), pads, assets) == Seq::<CommandView>::empty());
    if pads.len() > 0 {
        let head = pads.drop_last();
        let last = pads.last();
        let earlier = conversions(head, tower_type, assets);
        let all = conversions(pads, tower_type, assets);
        lemma_click_converts_selected_pads(head, tower_type, assets);
        assert forall|i: int| 0 <= i < head.len() && (#[trigger] pads[i]).selected implies {
            &&& all.contains(CommandView::DespawnRecursive { entity: pads[i].entity })
            &&& all.contains(tower_request(pads[i].position, tower_type, assets))
        } by {
            assert(head[i].selected);
            let removal = CommandView::DespawnRecursive { entity: pads[i].entity };
            let tower = tower_request(pads[i].position, tower_type, assets);
            let a = choose|a: int| 0 <= a < earlier.len() && earlier[a] == removal;
            let b = choose|b: int| 0 <= b < earlier.len() && earlier[b] == tower;
            assert(all[a] == removal);
            assert(all[b] == tower);
        }
        if last.selected {
            let removal = CommandView::DespawnRecursive { entity: last.entity };
            let tower = tower_request(last.position, tower_type, assets);
            let with_removal = earlier.push(removal);
            assert(all.drop_last() =~= with_removal);
            assert(with_removal.drop_last() =~= earlier);
            assert(despawns(with_removal) == despawns(earlier) + 1);
            assert(tower_spawns(with_removal, tower_type) == tower_spawns(earlier, tower_type));
            assert forall|other: TowerType| other != tower_type implies #[trigger] tower_spawns(
                all,
                other,
            ) == 0 by {
                assert(tower_spawns(earlier, other) == 0);
                assert(tower_spawns(with_removal, other) == 0);
            }
        }
    }
}

/// The build menu is shown exactly while something is selected, and never
/// twice. Where at most one menu exists before the tick, then once the
/// engine has carried out what [`create_ui_on_selection`] asked for, one
/// menu exists if anything is selected and none if nothing is.
pub proof fn lemma_menu_follows_selection(
    selections: Seq<bool>,
    root: Seq<Entity>,
    icons: Seq<HandleUntyped>,
)
    requires
        root.len() <= 1,
    ensures
        any_selected(selections) ==> menus_after(
            root,
            menu_requests(any_selected(selections), root, icons),
        ) == 1,
        !any_selected(selections) ==> menus_after(
            root,
            menu_requests(any_selected(selections), root, icons),
        ) == 0,
{
    let selected = any_selected(selections);
    let requests = menu_requests(selected, root, icons);
    if root.len() == 1 {
        assert(menus_kept(root.drop_last(), requests) == 0);
    }
    if requests.len() == 1 {
        assert(menu_spawns(requests.drop_last()) == 0);
    }
}

/// Handles the changes of the build buttons in one tick. For every click,
/// every selected pad is removed and a tower of the clicked kind is spawned
/// in its place.
pub fn tower_button_clicked<'a>(
    interaction: &Vec<(Interaction, TowerType)>,
    commands: &mut Commands<'a>,
    selection: &Vec<Pad>,
    assets: &'a GameAssets,
)
    ensures
        final(commands)@ == old(commands)@ + placements(interaction@, selection@, *assets),
{
    let mut i: usize = 0;
    while i < interaction.len()
        invariant
            0 <= i <= interaction.len(),
            commands@ == old(commands)@ + placements(
                interaction@.take(i as int),
                selection@,
                *assets,
            ),
        decreases interaction.len() - i,
    {
        let (state, tower_type) = interaction[i];
        let ghost before_click = commands@;
        match state {
            Interaction::Clicked => {
                let mut j: usize = 0;
                while j < selection.len()
                    invariant
                        0 <= j <= selection.len(),
                        commands@ == before_click + conversions(
                            selection@.take(j as int),
                            tower_type,
                            *assets,
                        ),
                    decreases selection.len() - j,
                {
                    let pad = &selection[j];
                    if pad.selected {
                        commands.add(Command::DespawnRecursive { entity: pad.entity });
                        spawn_tower(commands, assets, pad.position, tower_type);
                    }
                    assert(selection@.take(j + 1).drop_last() =~= selection@.take(j as int));
                    j += 1;
                }
                assert(selection@.take(j as int) =~= selection@);
            },
            _ => {},
        }
        assert(interaction@.take(i + 1).drop_last() =~= interaction@.take(i as int));
        i += 1;
    }
    assert(interaction@.take(i as int) =~= interaction@);
}

/// The file from which the icon of the button of the given kind is loaded.
pub fn button_icon(tower_type: TowerType) -> (file: &'static str)
    ensures
        file@ == icon_file(tower_type),
{
    match tower_type {
        TowerType::Tomato => "tomato_tower.png",
        TowerType::Potato => "potato_tower.png",
        TowerType::Cabbage => "cabbage_tower.png",
    }
}

/// Queues the request to spawn the build menu: one button for each kind of
/// tower, in [`button_order`], with the icons in the same order. The buttons
/// borrow the icons.
pub fn create_ui<'a>(commands: &mut Commands<'a>, button_icons: &'a [HandleUntyped; 3])
    ensures
        final(commands)@ == old(commands)@.push(
            CommandView::SpawnUi { buttons: menu_buttons(button_icons@) },
        ),
{
    let towers = [TowerType::Tomato, TowerType::Potato, TowerType::Cabbage];
    let mut buttons: Vec<TowerButton<'a>> = Vec::new();
    let mut i: usize = 0;
    while i < 3
        invariant
            0 <= i <= 3,
            towers@ == button_order(),
            buttons@.len() == i,
            forall|k: int|
                0 <= k < i ==> (#[trigger] buttons@[k])@ == menu_buttons(button_icons@)[k],
        decreases 3 - i,
    {
        buttons.push(TowerButton { icon: &button_icons[i], tower_type: towers[i] });
        i += 1;
    }
    assert(buttons@.map_values(|button: TowerButton<'a>| button@) =~= menu_buttons(
        button_icons@,
    ));
    commands.add(Command::SpawnUi { buttons });
}

/// Shows the build menu while anything is selected, and removes it while
/// nothing is. `root` holds the menus that exist, of which there is at most
/// one.
pub fn create_ui_on_selection<'a>(
    commands: &mut Commands<'a>,
    button_icons: &'a [HandleUntyped; 3],
    selections: &Vec<bool>,
    root: &Vec<Entity>,
)
    requires
        root.len() <= 1,
    ensures
        final(commands)@ == old(commands)@ + menu_requests(
            any_selected(selections@),
            root@,
            button_icons@,
        ),
{
    let mut at_least_one_selected = false;
    let mut i: usize = 0;
    while i < selections.len()
        invariant
            0 <= i <= selections.len(),
            at_least_one_selected == any_selected(selections@.take(i as int)),
        decreases selections.len() - i,
    {
        if selections[i] {
            at_least_one_selected = true;
        }
        assert(any_selected(selections@.take(i + 1)) == (any_selected(
            selections@.take(i as int),
        ) || selections@[i as int])) by {
            let shorter = selections@.take(i as int);
            let longer = selections@.take(i + 1);
            if any_selected(shorter) {
                let k = choose|k: int| 0 <= k < shorter.len() && shorter[k];
                assert(longer[k]);
            }
            if selections@[i as int] {
                assert(longer[i as int]);
            }
            if any_selected(longer) {
                let k = choose|k: int| 0 <= k < longer.len() && longer[k];
                assert(k < i ==> shorter[k]);
            }
        }
        i += 1;
    }
    assert(selections@.take(i as int) =~= selections@);
    if root.len() == 1 {
        if !at_least_one_selected {
            commands.add(Command::DespawnRecursive { entity: root[0] });
        }
    } else {
        if at_least_one_selected {
            create_ui(commands, button_icons);
        }
    }
}

} // verus!
