use remini::dataset::Category;
use remini::{jigsaw, youtube};

fn jig(id: &str, labels: [u8; 6]) -> jigsaw::Comment {
    jigsaw::Comment {
        id: id.to_string(),
        comment_text: format!("text of {id}"),
        toxic: labels[0],
        severe_toxic: labels[1],
        obscene: labels[2],
        threat: labels[3],
        insult: labels[4],
        identity_hate: labels[5],
    }
}

fn yt(flags: [bool; 12]) -> youtube::Comment {
    youtube::Comment {
        comment_id: "c".to_string(),
        video_id: "v".to_string(),
        text: "t".to_string(),
        toxic: flags[0],
        abusive: flags[1],
        threat: flags[2],
        provocative: flags[3],
        obscene: flags[4],
        hate_speech: flags[5],
        racist: flags[6],
        nationalist: flags[7],
        sexist: flags[8],
        homophobic: flags[9],
        religious_hate: flags[10],
        radicalism: flags[11],
    }
}

#[test]
fn jigsaw_comments_are_filed_by_label() {
    let comments = vec![
        jig("a", [1, 0, 0, 0, 0, 0]),
        jig("b", [0, 0, 0, 0, 0, 0]),
        jig("c", [1, 1, 0, 0, 1, 0]),
        jig("d", [0, 0, 0, 0, 0, 1]),
    ];
    assert_eq!(jigsaw::classify(&comments, Category::Toxic), vec![0, 2]);
    assert_eq!(jigsaw::classify(&comments, Category::Neutral), vec![1]);
    assert_eq!(jigsaw::classify(&comments, Category::Insult), vec![2]);
    assert_eq!(jigsaw::classify(&comments, Category::IdentityHate), vec![3]);
    assert!(jigsaw::classify(&comments, Category::Threat).is_empty());
    assert_eq!(jigsaw::categories().len(), 7);
}

#[test]
fn youtube_comments_are_filed_by_flags() {
    let mut racist = [false; 12];
    racist[6] = true;
    let mut provocative = [false; 12];
    provocative[3] = true;
    let comments = vec![yt(racist), yt([false; 12]), yt(provocative)];
    assert_eq!(youtube::classify(&comments, Category::SevereToxic), vec![0]);
    assert_eq!(youtube::classify(&comments, Category::IdentityHate), vec![0]);
    assert_eq!(youtube::classify(&comments, Category::Toxic), vec![2]);
    assert_eq!(youtube::classify(&comments, Category::Neutral), vec![1]);
    assert!(youtube::classify(&comments, Category::Insult).is_empty());
    assert_eq!(
        youtube::categories(),
        vec![
            Category::Toxic,
            Category::SevereToxic,
            Category::Obscene,
            Category::Threat,
            Category::IdentityHate,
            Category::Neutral
        ]
    );
}

#[test]
fn label_words_are_read_in_any_case() {
    for w in ["t", "TRUE", "1", "On", "y", "Yes"] {
        assert_eq!(youtube::str_to_bool(w), Some(true), "{w}");
    }
    for w in ["F", "false", "0", "OFF", "n", "No"] {
        assert_eq!(youtube::str_to_bool(w), Some(false), "{w}");
    }
    assert_eq!(youtube::str_to_bool("maybe"), None);
    assert_eq!(youtube::str_to_bool(""), None);
}

#[test]
fn category_directory_names() {
    assert_eq!(Category::SevereToxic.name(), "severe_toxic");
    assert_eq!(Category::IdentityHate.name(), "identity_hate");
    assert_eq!(Category::Neutral.name(), "neutral");
}

#[test]
fn selection_lists_true_positions_in_order() {
    assert_eq!(remini::dataset::select(&vec![false, true, true, false, true]), vec![1, 2, 4]);
    assert!(remini::dataset::select(&Vec::new()).is_empty());
}
