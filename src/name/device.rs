use vstd::prelude::*;

verus! {

/// A device extension.
#[derive(Debug, Clone, Copy, PartialEq, Eq, Structural)]
pub enum Extension {
    KhrSwapchain,
    KhrDeferredHostOperations,
    KhrRayTracingPipeline,
    KhrAccelerationStructure,
    KhrShaderNonSemanticInfo,
    KhrRayQuery,
    KhrSynchronization2,
    KhrVulkanMemoryModel,
}

impl Extension {
    /// The name the driver knows it by.
    pub open spec fn spec_name(self) -> Seq<char> {
        match self {
            Extension::KhrSwapchain => "VK_KHR_swapchain"@,
            Extension::KhrDeferredHostOperations => "VK_KHR_deferred_host_operations"@,
            Extension::KhrRayTracingPipeline => "VK_KHR_ray_tracing_pipeline"@,
            Extension::KhrAccelerationStructure => "VK_KHR_acceleration_structure"@,
            Extension::KhrShaderNonSemanticInfo => "VK_KHR_shader_non_semantic_info"@,
            Extension::KhrRayQuery => "VK_KHR_ray_query"@,
            Extension::KhrSynchronization2 => "VK_KHR_synchronization2"@,
            Extension::KhrVulkanMemoryModel => "VK_KHR_vulkan_memory_model"@,
        }
    }

    /// The variant whose name is `s`, if there is one.
    pub open spec fn named(s: Seq<char>) -> Option<Self> {
        if s == "VK_KHR_swapchain"@ {
            Some(Extension::KhrSwapchain)
        } else if s == "VK_KHR_deferred_host_operations"@ {
            Some(Extension::KhrDeferredHostOperations)
        } else if s == "VK_KHR_ray_tracing_pipeline"@ {
            Some(Extension::KhrRayTracingPipeline)
        } else if s == "VK_KHR_acceleration_structure"@ {
            Some(Extension::KhrAccelerationStructure)
        } else if s == "VK_KHR_shader_non_semantic_info"@ {
            Some(Extension::KhrShaderNonSemanticInfo)
        } else if s == "VK_KHR_ray_query"@ {
            Some(Extension::KhrRayQuery)
        } else if s == "VK_KHR_synchronization2"@ {
            Some(Extension::KhrSynchronization2)
        } else if s == "VK_KHR_vulkan_memory_model"@ {
            Some(Extension::KhrVulkanMemoryModel)
        } else {
            None
        }
    }

    /// The known variants among `names`, in their order.
    pub open spec fn known_in(names: Seq<String>) -> Seq<Self>
        decreases names.len(),
    {
        if names.len() == 0 {
            seq![]
        } else {
            let rest = Self::known_in(names.drop_last());
            match Self::named(names.last()@) {
                Some(v) => rest.push(v),
                None => rest,
            }
        }
    }

    pub fn as_ref(&self) -> (r: &'static str)
        ensures
            r@ == self.spec_name(),
    {
        match self {
            Extension::KhrSwapchain => "VK_KHR_swapchain",
            Extension::KhrDeferredHostOperations => "VK_KHR_deferred_host_operations",
            Extension::KhrRayTracingPipeline => "VK_KHR_ray_tracing_pipeline",
            Extension::KhrAccelerationStructure => "VK_KHR_acceleration_structure",
            Extension::KhrShaderNonSemanticInfo => "VK_KHR_shader_non_semantic_info",
            Extension::KhrRayQuery => "VK_KHR_ray_query",
            Extension::KhrSynchronization2 => "VK_KHR_synchronization2",
            Extension::KhrVulkanMemoryModel => "VK_KHR_vulkan_memory_model",
        }
    }

    /// The variant named `name`, if there is one.
    pub fn from_name(name: &str) -> (r: Option<Self>)
        ensures
            r == Self::named(name@),
            r matches Some(v) ==> v.spec_name() == name@,
            r is None ==> forall|v: Extension| v.spec_name() != name@,
    {
        let owned = name.to_owned();
        if owned == "VK_KHR_swapchain".to_owned() {
            return Some(Extension::KhrSwapchain);
        }
        if owned == "VK_KHR_deferred_host_operations".to_owned() {
            return Some(Extension::KhrDeferredHostOperations);
        }
        if owned == "VK_KHR_ray_tracing_pipeline".to_owned() {
            return Some(Extension::KhrRayTracingPipeline);
        }
        if owned == "VK_KHR_acceleration_structure".to_owned() {
            return Some(Extension::KhrAccelerationStructure);
        }
        if owned == "VK_KHR_shader_non_semantic_info".to_owned() {
            return Some(Extension::KhrShaderNonSemanticInfo);
        }
        if owned == "VK_KHR_ray_query".to_owned() {
            return Some(Extension::KhrRayQuery);
        }
        if owned == "VK_KHR_synchronization2".to_owned() {
            return Some(Extension::KhrSynchronization2);
        }
        if owned == "VK_KHR_vulkan_memory_model".to_owned() {
            return Some(Extension::KhrVulkanMemoryModel);
        }
        None
    }

    /// The known variants among the names that a driver reports, in their
    /// order; unknown names are skipped.
    pub fn known(names: &[String]) -> (r: Vec<Self>)
        ensures
            r@ == Self::known_in(names@),
    {
        let mut r: Vec<Self> = Vec::new();
        let mut i: usize = 0;
        while i < names.len()
            invariant
                i <= names@.len(),
                r@ == Self::known_in(names@.subrange(0, i as int)),
            decreases names@.len() - i,
        {
            let found = Self::from_name(names[i].as_str());
            proof {
                assert(names@.subrange(0, i + 1).drop_last() =~= names@.subrange(0, i as int));
            }
            match found {
                Some(v) => r.push(v),
                None => {},
            }
            i = i + 1;
        }
        assert(names@.subrange(0, names@.len() as int) =~= names@);
        r
    }
}

} // verus!
