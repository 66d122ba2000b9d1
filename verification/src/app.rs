//! The application state that the key-handling actions of every view act on.
use vstd::prelude::*;
use crate::cloud::config::AwsConfig;
use crate::common::ColumnId;

verus! {

/// Whether a view shows its list or the detail of one item.
#[derive(Clone, Copy, Debug, PartialEq, Eq, Structural)]
pub enum ViewMode {
    List,
    Detail,
    Events,
    PolicyView,
}

/// The service of the active tab.
#[derive(Clone, Copy, Debug, PartialEq, Eq, Structural)]
pub enum Service {
    Ec2,
    Ecr,
    Efs,
    Fsx,
    CloudTrail,
    CloudWatchAlarms,
    CloudWatchLogs,
    CloudWatchInsights,
    CloudFormation,
    IamUsers,
    IamRoles,
    IamGroups,
    ApiGateway,
    Other,
}

/// The state of the console.
pub struct App {
    pub config: AwsConfig,
    pub view_mode: ViewMode,
    pub column_selector_index: usize,
    pub current_service: Service,
    pub tab_breadcrumb: Vec<String>,
    pub ec2_state: crate::ec2::State,
    pub ec2_column_ids: Vec<ColumnId>,
    pub ec2_visible_column_ids: Vec<ColumnId>,
    pub ecr_state: crate::ecr::State,
    pub ecr_repo_column_ids: Vec<ColumnId>,
    pub ecr_repo_visible_column_ids: Vec<ColumnId>,
    pub ecr_image_column_ids: Vec<ColumnId>,
    pub ecr_image_visible_column_ids: Vec<ColumnId>,
    pub efs_state: crate::efs::State,
    pub efs_column_ids: Vec<ColumnId>,
    pub efs_visible_column_ids: Vec<ColumnId>,
    pub fsx_state: crate::fsx::State,
    pub fsx_column_ids: Vec<ColumnId>,
    pub fsx_visible_column_ids: Vec<ColumnId>,
    pub cloudtrail_state: crate::cloudtrail::State,
    pub cloudtrail_event_column_ids: Vec<ColumnId>,
    pub cloudtrail_resource_column_ids: Vec<ColumnId>,
    pub alarms_state: crate::cw::AlarmsState,
    pub log_groups_state: crate::cw::LogGroupsState,
    pub insights_state: crate::cw::insights::State,
    pub cfn_state: crate::cfn::State,
    pub cfn_column_ids: Vec<ColumnId>,
    pub cfn_visible_column_ids: Vec<ColumnId>,
    pub cfn_parameter_column_ids: Vec<ColumnId>,
    pub cfn_parameter_visible_column_ids: Vec<ColumnId>,
    pub cfn_output_column_ids: Vec<ColumnId>,
    pub cfn_output_visible_column_ids: Vec<ColumnId>,
    pub cfn_resource_column_ids: Vec<ColumnId>,
    pub cfn_resource_visible_column_ids: Vec<ColumnId>,
    pub cfn_event_column_ids: Vec<ColumnId>,
    pub cfn_event_visible_column_ids: Vec<ColumnId>,
    pub cfn_change_set_column_ids: Vec<ColumnId>,
    pub cfn_change_set_visible_column_ids: Vec<ColumnId>,
    pub iam_state: crate::iam::State,
    pub iam_user_column_ids: Vec<ColumnId>,
    pub iam_user_visible_column_ids: Vec<ColumnId>,
    pub iam_role_column_ids: Vec<ColumnId>,
    pub iam_role_visible_column_ids: Vec<ColumnId>,
    pub iam_group_column_ids: Vec<ColumnId>,
    pub iam_group_visible_column_ids: Vec<ColumnId>,
    pub iam_policy_column_ids: Vec<ColumnId>,
    pub iam_policy_visible_column_ids: Vec<ColumnId>,
    pub apig_state: crate::apig::State,
    pub apig_api_column_ids: Vec<ColumnId>,
    pub apig_api_visible_column_ids: Vec<ColumnId>,
    pub apig_resource_column_ids: Vec<ColumnId>,
    pub apig_resource_visible_column_ids: Vec<ColumnId>,
    pub apig_route_column_ids: Vec<ColumnId>,
    pub apig_route_visible_column_ids: Vec<ColumnId>,
}

impl App {
    /// Everything outside the view of `s` is as in `old`, the session included.
    pub open spec fn unchanged_except(self, old: App, s: Service) -> bool {
        &&& self.config == old.config
        &&& (s != Service::Ec2 ==> {
            &&& self.ec2_state == old.ec2_state
            &&& self.ec2_column_ids@ == old.ec2_column_ids@
            &&& self.ec2_visible_column_ids@ == old.ec2_visible_column_ids@
        })
        &&& (s != Service::Ecr ==> {
            &&& self.ecr_state == old.ecr_state
            &&& self.ecr_repo_column_ids@ == old.ecr_repo_column_ids@
            &&& self.ecr_repo_visible_column_ids@ == old.ecr_repo_visible_column_ids@
            &&& self.ecr_image_column_ids@ == old.ecr_image_column_ids@
            &&& self.ecr_image_visible_column_ids@ == old.ecr_image_visible_column_ids@
        })
        &&& (s != Service::Efs ==> {
            &&& self.efs_state == old.efs_state
            &&& self.efs_column_ids@ == old.efs_column_ids@
            &&& self.efs_visible_column_ids@ == old.efs_visible_column_ids@
        })
        &&& (s != Service::Fsx ==> {
            &&& self.fsx_state == old.fsx_state
            &&& self.fsx_column_ids@ == old.fsx_column_ids@
            &&& self.fsx_visible_column_ids@ == old.fsx_visible_column_ids@
        })
        &&& (s != Service::CloudTrail ==> {
            &&& self.cloudtrail_state == old.cloudtrail_state
            &&& self.cloudtrail_event_column_ids@ == old.cloudtrail_event_column_ids@
            &&& self.cloudtrail_resource_column_ids@ == old.cloudtrail_resource_column_ids@
        })
        &&& (s != Service::CloudWatchAlarms ==> self.alarms_state == old.alarms_state)
        &&& (s != Service::CloudWatchLogs && s != Service::CloudWatchInsights ==> self.log_groups_state
            == old.log_groups_state)
        &&& (s != Service::CloudWatchInsights ==> self.insights_state == old.insights_state)
        &&& (s != Service::CloudFormation ==> {
            &&& self.cfn_state == old.cfn_state
            &&& self.cfn_column_ids@ == old.cfn_column_ids@
            &&& self.cfn_visible_column_ids@ == old.cfn_visible_column_ids@
            &&& self.cfn_parameter_column_ids@ == old.cfn_parameter_column_ids@
            &&& self.cfn_parameter_visible_column_ids@ == old.cfn_parameter_visible_column_ids@
            &&& self.cfn_output_column_ids@ == old.cfn_output_column_ids@
            &&& self.cfn_output_visible_column_ids@ == old.cfn_output_visible_column_ids@
            &&& self.cfn_resource_column_ids@ == old.cfn_resource_column_ids@
            &&& self.cfn_resource_visible_column_ids@ == old.cfn_resource_visible_column_ids@
            &&& self.cfn_event_column_ids@ == old.cfn_event_column_ids@
            &&& self.cfn_event_visible_column_ids@ == old.cfn_event_visible_column_ids@
            &&& self.cfn_change_set_column_ids@ == old.cfn_change_set_column_ids@
            &&& self.cfn_change_set_visible_column_ids@ == old.cfn_change_set_visible_column_ids@
        })
        &&& (s != Service::IamUsers && s != Service::IamRoles && s != Service::IamGroups ==> {
            &&& self.iam_state == old.iam_state
            &&& self.iam_user_column_ids@ == old.iam_user_column_ids@
            &&& self.iam_user_visible_column_ids@ == old.iam_user_visible_column_ids@
            &&& self.iam_role_column_ids@ == old.iam_role_column_ids@
            &&& self.iam_role_visible_column_ids@ == old.iam_role_visible_column_ids@
            &&& self.iam_group_column_ids@ == old.iam_group_column_ids@
            &&& self.iam_group_visible_column_ids@ == old.iam_group_visible_column_ids@
            &&& self.iam_policy_column_ids@ == old.iam_policy_column_ids@
            &&& self.iam_policy_visible_column_ids@ == old.iam_policy_visible_column_ids@
        })
        &&& (s != Service::ApiGateway ==> {
            &&& self.apig_state == old.apig_state
            &&& self.apig_api_column_ids@ == old.apig_api_column_ids@
            &&& self.apig_api_visible_column_ids@ == old.apig_api_visible_column_ids@
            &&& self.apig_resource_column_ids@ == old.apig_resource_column_ids@
            &&& self.apig_resource_visible_column_ids@ == old.apig_resource_visible_column_ids@
            &&& self.apig_route_column_ids@ == old.apig_route_column_ids@
            &&& self.apig_route_visible_column_ids@ == old.apig_route_visible_column_ids@
        })
    }

    /// View mode, preferences cursor, active service and tab title are as in `old`.
    pub open spec fn keeps_shell(self, old: App) -> bool {
        &&& self.view_mode == old.view_mode
        &&& self.column_selector_index == old.column_selector_index
        &&& self.current_service == old.current_service
        &&& self.tab_breadcrumb@ == old.tab_breadcrumb@
    }

    /// The breadcrumb of the active tab.
    pub open spec fn current_breadcrumb(self) -> Seq<Seq<char>> {
        match self.current_service {
            Service::Ec2 => crate::ec2::actions::breadcrumb_of(self.ec2_state),
            Service::Ecr => crate::ecr::actions::breadcrumb_of(self.ecr_state),
            Service::Efs => crate::efs::actions::breadcrumb_of(self.efs_state),
            Service::Fsx => crate::fsx::actions::breadcrumb_of(self.fsx_state),
            Service::CloudTrail => crate::cloudtrail::actions::breadcrumb_of(self.cloudtrail_state),
            Service::CloudWatchAlarms => crate::cw::actions::alarms_breadcrumb_of(),
            Service::CloudWatchLogs => crate::cw::actions::logs_breadcrumb_of(self.log_groups_state, self.view_mode),
            Service::CloudWatchInsights => crate::cw::actions::insights_breadcrumb_of(),
            Service::CloudFormation => crate::cfn::actions::breadcrumb_of(self.cfn_state),
            Service::IamUsers => crate::iam::actions::users_breadcrumb_of(),
            Service::IamRoles => crate::iam::actions::roles_breadcrumb_of(self.iam_state),
            Service::IamGroups => crate::iam::actions::groups_breadcrumb_of(self.iam_state),
            Service::ApiGateway => crate::apig::actions::breadcrumb_of(self.apig_state),
            Service::Other => Seq::empty(),
        }
    }

    /// Recomputes the title of the active tab from its view.
    pub fn update_current_tab_breadcrumb(&mut self)
        ensures
            crate::columns::string_names(final(self).tab_breadcrumb@) == old(self).current_breadcrumb(),
            final(self).unchanged_except(*old(self), Service::Other),
            final(self).view_mode == old(self).view_mode,
            final(self).column_selector_index == old(self).column_selector_index,
            final(self).current_service == old(self).current_service,
            final(self).ec2_state == old(self).ec2_state,
            final(self).ecr_state == old(self).ecr_state,
            final(self).efs_state == old(self).efs_state,
    {
        let crumbs = match self.current_service {
            Service::Ec2 => crate::ec2::actions::breadcrumb(self),
            Service::Ecr => crate::ecr::actions::breadcrumb(self),
            Service::Efs => crate::efs::actions::breadcrumb(self),
            Service::Fsx => crate::fsx::actions::breadcrumb(self),
            Service::CloudTrail => crate::cloudtrail::actions::breadcrumb(self),
            Service::CloudWatchAlarms => crate::cw::actions::alarms_breadcrumb(),
            Service::CloudWatchLogs => crate::cw::actions::logs_breadcrumb(self),
            Service::CloudWatchInsights => crate::cw::actions::insights_breadcrumb(),
            Service::CloudFormation => crate::cfn::actions::breadcrumb(self),
            Service::IamUsers => crate::iam::actions::breadcrumb_users(),
            Service::IamRoles => crate::iam::actions::breadcrumb_roles(self),
            Service::IamGroups => crate::iam::actions::breadcrumb_groups(self),
            Service::ApiGateway => crate::apig::actions::breadcrumb(self),
            Service::Other => Vec::new(),
        };
        assert(crate::columns::string_names(crumbs@) =~= self.current_breadcrumb());
        self.tab_breadcrumb = crumbs;
    }
}

} // verus!
