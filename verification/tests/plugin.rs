use bevy_egui::contexts::{primary_context, window_context, WindowContext};
use bevy_egui::node::EGUI_PASS;
use bevy_egui::{EguiPass, EguiRenderToTexturePass, EguiSet, EguiStartupSet};

#[test]
fn contexts_are_found_by_window() {
    let contexts = vec![
        WindowContext { window: 4, is_primary: false },
        WindowContext { window: 9, is_primary: true },
        WindowContext { window: 4, is_primary: true },
    ];
    assert_eq!(primary_context(&contexts), Some(1));
    assert_eq!(window_context(&contexts, 4), Some(0));
    assert_eq!(window_context(&contexts, 9), Some(1));
    assert_eq!(window_context(&contexts, 5), None);
    assert_eq!(primary_context(&vec![WindowContext { window: 1, is_primary: false }]), None);
}

#[test]
fn pass_labels_and_sets() {
    let p = EguiPass::new(3, 1);
    assert_eq!((p.entity_index, p.entity_generation), (3, 1));
    let r = EguiRenderToTexturePass::new(5, 2);
    assert_eq!((r.entity_index, r.entity_generation), (5, 2));
    assert_eq!(EGUI_PASS, "egui_pass");
    assert_ne!(EguiSet::ProcessInput, EguiSet::BeginFrame);
    assert_eq!(EguiStartupSet::InitContexts, EguiStartupSet::InitContexts);
}
