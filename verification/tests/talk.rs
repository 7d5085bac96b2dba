use chara_core::talkscript::{TalkScriptObject, TalkSection, TalkSectionReaction};

fn section(text: Option<&str>) -> TalkSection {
    TalkSection {
        text: text.map(|t| t.to_string()),
        reaction: TalkSectionReaction::End,
        sub_reaction: Vec::new(),
    }
}

#[test]
fn section_text_is_returned() {
    let script = TalkScriptObject {
        id: "villager".to_string(),
        sections: vec![
            ("start".to_string(), section(Some("Welcome, stranger."))),
            ("bye".to_string(), section(Some("Farewell."))),
        ],
    };
    assert_eq!(
        script.get_section_text(&"start".to_string()),
        Some("Welcome, stranger.")
    );
    assert_eq!(
        script.get_section_text(&"bye".to_string()),
        Some("Farewell.")
    );
}

#[test]
fn section_without_text_yields_none() {
    let script = TalkScriptObject {
        id: "mute".to_string(),
        sections: vec![("start".to_string(), section(None))],
    };
    assert_eq!(script.get_section_text(&"start".to_string()), None);
}
