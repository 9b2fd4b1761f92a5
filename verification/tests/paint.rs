use petunia_ui::icons::PetuniaIcon;
use petunia_ui::paint::{
    blend_index, blend_key, brush_type_of, can_delete_layer, canonical_paint_tools, effect_choice,
    effect_name_key, layer_title, new_layer_size, paint_tool_is_active, reorder_layers, section_tool_indices,
    BrushType, PaintToolSection, BLEND_MODES, EFFECT_COUNT,
};
use petunia_ui::paint::{
    apply_row_edit, canvas_resize, canvas_size_choices, fill_scopes, texture_channels, layer_buttons_enabled, layer_visibility_button, order_changed, FillScope, LayerBlendMode,
    LayerRow, LayerRowEdit,
};

/// The palette covers the eight indices of the contract, once each.
#[test]
fn the_tool_palette_covers_every_brush_kind_once() {
    let tools = canonical_paint_tools();
    let mut kinds: Vec<usize> = tools.iter().map(|tool| tool.kind).collect();
    kinds.sort_unstable();
    assert_eq!(kinds, vec![0, 1, 2, 3, 4, 5, 6, 7]);
    // Every group has at least one tool.
    for section in PaintToolSection::ALL {
        assert!(
            tools.iter().any(|tool| tool.section == section),
            "grupo {} vazio",
            section.key()
        );
    }
}

/// The persisted index and the engine type cannot diverge.
#[test]
fn every_brush_kind_maps_to_its_engine_type() {
    for tool in canonical_paint_tools() {
        let expected = match tool.kind {
            0 => BrushType::Pixel,
            1 => BrushType::Soft,
            2 => BrushType::Eraser,
            3 => BrushType::Fill,
            4 => BrushType::Eyedropper,
            5 => BrushType::Line,
            6 => BrushType::Rectangle,
            _ => BrushType::Airbrush,
        };
        assert_eq!(brush_type_of(tool.kind), expected, "kind {}", tool.kind);
    }
    // An index out of range never panics (legacy or damaged project).
    assert_eq!(brush_type_of(999), BrushType::Pixel);
}

/// Translation key and index go together.
#[test]
fn blend_names_and_keys_share_one_order() {
    assert_eq!(blend_key(BLEND_MODES[0]), "paint.blend_normal");
    assert_eq!(blend_key(BLEND_MODES[1]), "paint.blend_multiply");
    assert_eq!(blend_key(BLEND_MODES[2]), "paint.blend_add");
    assert_eq!(blend_key(BLEND_MODES[3]), "paint.blend_screen");
    for (index, mode) in BLEND_MODES.iter().enumerate() {
        assert_eq!(blend_index(*mode), index);
    }
}

#[test]
fn every_effect_of_the_contract_has_a_key() {
    for index in 0..EFFECT_COUNT {
        let key = effect_name_key(index);
        assert!(key.starts_with("paint.effect_"), "{key}");
    }
    assert_eq!(effect_name_key(0), "paint.effect_grain");
    assert_eq!(effect_name_key(2), "paint.effect_brightness_contrast");
    // Out of range the selector does not overflow: it falls on the last effect.
    assert_eq!(effect_name_key(99), "paint.effect_invert");
    assert_eq!(effect_choice(99), EFFECT_COUNT - 1);
    assert_eq!(effect_choice(3), 3);
}

#[test]
fn layer_titles_mark_effect_layers() {
    assert_eq!(layer_title("Layer 1", false), "Layer 1");
    assert_eq!(layer_title("Layer 1", true), "fx · Layer 1");
}

#[test]
fn section_keys_and_labels() {
    assert_eq!(PaintToolSection::Brushes.key(), "brushes");
    assert_eq!(PaintToolSection::Shapes.key(), "shapes");
    assert_eq!(PaintToolSection::Sample.key(), "sample");
    assert_eq!(PaintToolSection::Brushes.label_key(), "paint.tool_section_brushes");
    assert_eq!(PaintToolSection::Shapes.label_key(), "paint.tool_section_shapes");
    assert_eq!(PaintToolSection::Sample.label_key(), "paint.tool_section_sample");
}

#[test]
fn palette_groups_split_the_column() {
    let tools = canonical_paint_tools();
    assert_eq!(section_tool_indices(&tools, PaintToolSection::Brushes), vec![0, 1, 2, 3]);
    assert_eq!(section_tool_indices(&tools, PaintToolSection::Shapes), vec![4, 5, 6]);
    assert_eq!(section_tool_indices(&tools, PaintToolSection::Sample), vec![7]);
    assert_eq!(tools[3].icon, PetuniaIcon::PaintEraser);
    assert_eq!(tools[2].label_key, "paint.brush_airbrush");
}

#[test]
fn brush_button_is_active_only_for_the_paint_tool_and_its_kind() {
    assert!(paint_tool_is_active("paint", 3, 3));
    assert!(!paint_tool_is_active("paint", 3, 4));
    assert!(!paint_tool_is_active("select", 3, 3));
}

#[test]
fn the_last_layer_cannot_be_deleted_and_new_layers_fit_the_canvas() {
    assert!(!can_delete_layer(1));
    assert!(can_delete_layer(2));
    assert_eq!(new_layer_size(0, 0), (256, 256));
    assert_eq!(new_layer_size(64, 32), (64, 32));
}

#[test]
fn a_complete_drag_reorders_the_stack() {
    let layers = vec![10u128, 20, 30];
    assert_eq!(reorder_layers(&layers, &vec![30, 10, 20]), Some(vec![2, 0, 1]));
    // Unknown or missing ids leave the stack as it was.
    assert_eq!(reorder_layers(&layers, &vec![30, 10]), None);
    assert_eq!(reorder_layers(&layers, &vec![30, 10, 99]), None);
}

fn row(id: u128, name: &str) -> LayerRow {
    LayerRow { id, name: name.to_string(), visible: true, blend: LayerBlendMode::Normal }
}

#[test]
fn layer_rows_edit_the_layer_with_their_id() {
    let mut rows = vec![row(1, "Base"), row(2, "Shade")];
    apply_row_edit(&mut rows, LayerRowEdit::ToggleVisible(2));
    assert!(rows[0].visible && !rows[1].visible);
    apply_row_edit(&mut rows, LayerRowEdit::Blend(1, LayerBlendMode::Multiply));
    assert_eq!(rows[0].blend, LayerBlendMode::Multiply);
    apply_row_edit(&mut rows, LayerRowEdit::Rename(2, "Shadow".to_string()));
    assert_eq!(rows[1].name, "Shadow");
    let before = rows.clone();
    apply_row_edit(&mut rows, LayerRowEdit::ToggleVisible(9));
    assert_eq!(rows, before);
}

#[test]
fn layer_buttons_and_row_eye() {
    assert_eq!(layer_buttons_enabled(true, 1), (true, false));
    assert_eq!(layer_buttons_enabled(false, 3), (false, true));
    assert_eq!(layer_visibility_button(true), (PetuniaIcon::Eye, "paint.layer_hide"));
    assert_eq!(layer_visibility_button(false), (PetuniaIcon::EyeHidden, "paint.layer_show"));
}

#[test]
fn only_a_changed_order_is_sent() {
    assert!(!order_changed(&vec![1, 2, 3], &vec![1, 2, 3]));
    assert!(order_changed(&vec![1, 2, 3], &vec![2, 1, 3]));
    assert!(order_changed(&vec![1, 2], &vec![1, 2, 3]));
}

#[test]
fn fill_scope_selector_covers_all_five_domain_scopes() {
    assert_eq!(
        fill_scopes(),
        vec![FillScope::ConnectedPixels, FillScope::Face, FillScope::SelectedFaces, FillScope::UvIsland, FillScope::Object]
    );
}

#[test]
fn canvas_sizes_and_channels() {
    let choices = canvas_size_choices(256, 256);
    assert_eq!(choices, vec![(64, false), (128, false), (256, true), (512, false), (1024, false)]);
    assert!(canvas_size_choices(256, 128).iter().all(|(_, current)| !current));
    assert_eq!(canvas_resize(256, 256, 256), None);
    assert_eq!(canvas_resize(256, 256, 512), Some((512, 512)));
    let channels = texture_channels();
    assert_eq!(channels.len(), 6);
    assert_eq!(channels[0], ("paint.channel_albedo", true));
    assert!(channels[1..].iter().all(|(_, enabled)| !enabled));
}
