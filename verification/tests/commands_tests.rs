use secure_channel::commands::{
    AuthorityCommand, AuthorityCreateCommand, AuthoritySubcommand, CreateCommand, EnrollCommand,
    ForegroundArgs, ListCommand, NodeCommand, NodeSubcommand, OckamSubcommand, ResetCommand,
    ShowCommand,
};
use secure_channel::manager::NodeManagerGeneralOptions;
use secure_channel::node::NullWorker;
use secure_channel::registry::{KafkaServiceInfo, KafkaServiceKind};
use secure_channel::share::CreateInvitation;

fn node_create(name: &str, foreground: bool, child_process: bool) -> OckamSubcommand {
    OckamSubcommand::Node(NodeCommand {
        subcommand: NodeSubcommand::Create(CreateCommand {
            name: name.to_string(),
            foreground_args: ForegroundArgs { foreground, child_process },
        }),
    })
}

fn authority_create(name: &str, foreground: bool, child_process: bool) -> OckamSubcommand {
    OckamSubcommand::Authority(AuthorityCommand {
        subcommand: AuthoritySubcommand::Create(AuthorityCreateCommand {
            node_name: name.to_string(),
            foreground,
            child_process,
        }),
    })
}

#[test]
fn command_names() {
    let enroll = EnrollCommand {
        identity: None,
        authorization_code_flow: false,
        force: false,
        skip_orchestrator_resources_creation: false,
    };
    assert_eq!(enroll.name(), "enroll");
    assert_eq!(ListCommand { identity: None }.name(), "project list");
    assert_eq!(ResetCommand { yes: true, all: false }.name(), "reset");
    assert_eq!(node_create("n1", true, false).name(), "node");
    assert_eq!(authority_create("a1", true, false).name(), "authority");
    assert_eq!(OckamSubcommand::Enroll(enroll).name(), "enroll");
    assert_eq!(OckamSubcommand::Reset(ResetCommand { yes: false, all: true }).name(), "reset");
}

#[test]
fn foreground_and_background_detection() {
    assert!(node_create("n1", true, false).is_foreground_node());
    assert!(!node_create("n1", true, false).is_background_node());
    assert!(!node_create("n1", false, true).is_foreground_node());
    assert!(node_create("n1", false, true).is_background_node());
    assert!(authority_create("a1", true, false).is_foreground_node());
    assert!(authority_create("a1", false, true).is_background_node());
    let other = OckamSubcommand::Node(NodeCommand { subcommand: NodeSubcommand::Other });
    assert!(!other.is_foreground_node());
    assert!(!other.is_background_node());
    let reset = OckamSubcommand::Reset(ResetCommand { yes: true, all: false });
    assert!(!reset.is_foreground_node());
    assert!(!reset.is_background_node());
}

#[test]
fn node_name_only_for_child_processes() {
    assert_eq!(node_create("worker-7", false, true).node_name(), Some("worker-7".to_string()));
    assert_eq!(node_create("worker-7", true, false).node_name(), None);
    assert_eq!(authority_create("auth-1", false, true).node_name(), Some("auth-1".to_string()));
    assert_eq!(authority_create("auth-1", true, false).node_name(), None);
    let reset = OckamSubcommand::Reset(ResetCommand { yes: true, all: false });
    assert_eq!(reset.node_name(), None);
}

#[test]
fn kafka_service_info_holds_its_kind() {
    let info = KafkaServiceInfo::new(KafkaServiceKind::Inlet);
    assert_eq!(*info.kind(), KafkaServiceKind::Inlet);
    assert_eq!(info.kind().as_string(), "inlet");
    let info = KafkaServiceInfo::new(KafkaServiceKind::Outlet);
    assert_eq!(*info.kind(), KafkaServiceKind::Outlet);
    assert_eq!(info.kind().as_string(), "outlet");
}

#[test]
fn node_manager_general_options_carry_their_fields() {
    let opts = NodeManagerGeneralOptions::new("n1".to_string(), true, Some(4000), false);
    assert_eq!(opts.node_name, "n1");
    assert!(opts.start_default_services);
    assert_eq!(opts.status_endpoint_port, Some(4000));
    assert!(!opts.persistent);
}

#[test]
fn invitation_and_misc_records_construct() {
    let invitation = CreateInvitation {
        expires_at: Some("2031-01-01".to_string()),
        grant_role: "admin".to_string(),
        recipient_email: "a@example.com".to_string(),
        remaining_uses: Some(1),
        scope: "project".to_string(),
        target_id: "p1".to_string(),
    };
    assert_eq!(invitation.recipient_email, "a@example.com");
    assert_eq!(invitation.remaining_uses, Some(1));

    let show = ShowCommand { node_name: Some("n2".to_string()) };
    assert_eq!(show.node_name, Some("n2".to_string()));

    let _ = NullWorker;
}
