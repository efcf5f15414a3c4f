use vstd::prelude::*;

verus! {

/// The kind of a node in a demangled symbol tree.
#[derive(Debug, Clone, Copy, PartialEq, Eq, Hash, Structural)]
pub enum NodeKind {
    AccessibleFunctionRecord,
    AccessorAttachedMacroExpansion,
    Allocator,
    AnonymousDescriptor,
    ArgumentTuple,
    AssocTypePath,
    AssociatedConformanceDescriptor,
    AssociatedTypeDescriptor,
    AssociatedTypeMetadataAccessor,
    AssociatedTypeWitnessTableAccessor,
    AsyncAnnotation,
    AsyncAwaitResumePartialFunction,
    AsyncFunctionPointer,
    AsyncSuspendResumePartialFunction,
    AutoClosureType,
    AutoDiffDerivativeVTableThunk,
    AutoDiffFunction,
    AutoDiffFunctionKind,
    AutoDiffSelfReorderingReabstractionThunk,
    AutoDiffSubsetParametersThunk,
    BackDeploymentFallback,
    BackDeploymentThunk,
    BaseConformanceDescriptor,
    BaseWitnessTableAccessor,
    BodyAttachedMacroExpansion,
    BoundGenericClass,
    BoundGenericEnum,
    BoundGenericOtherNominalType,
    BoundGenericProtocol,
    BoundGenericStructure,
    BoundGenericTypeAlias,
    BuiltinFixedArray,
    BuiltinTypeName,
    CFunctionPointer,
    CanonicalSpecializedGenericTypeMetadataAccessFunction,
    Class,
    ClassMetadataBaseOffset,
    CompileTimeLiteral,
    ConcreteProtocolConformance,
    ConcurrentFunctionType,
    ConformanceAttachedMacroExpansion,
    ConstrainedExistential,
    Constructor,
    CoroFunctionPointer,
    CoroutineContinuationPrototype,
    CurryThunk,
    Deallocator,
    DefaultArgumentInitializer,
    DefaultAssociatedConformanceAccessor,
    DefaultAssociatedTypeMetadataAccessor,
    DefaultOverride,
    DependentAssociatedTypeRef,
    DependentGenericConformanceRequirement,
    DependentGenericLayoutRequirement,
    DependentGenericParamCount,
    DependentGenericParamType,
    DependentGenericSameTypeRequirement,
    DependentGenericSignature,
    DependentGenericType,
    DependentMemberType,
    Destructor,
    DidSet,
    DifferentiabilityWitness,
    DifferentiableFunctionType,
    DispatchThunk,
    DistributedAccessor,
    DistributedThunk,
    DynamicAttribute,
    DynamicSelf,
    EmptyList,
    Enum,
    EnumCase,
    ErrorType,
    EscapingAutoClosureType,
    EscapingObjCBlock,
    ExistentialMetatype,
    ExplicitClosure,
    Extension,
    ExtensionAttachedMacroExpansion,
    ExtensionDescriptor,
    FieldOffset,
    FirstElementMarker,
    FreestandingMacroExpansion,
    FullTypeMetadata,
    Function,
    FunctionSignatureSpecialization,
    FunctionSignatureSpecializationParam,
    FunctionSignatureSpecializationParamKind,
    FunctionSignatureSpecializationParamPayload,
    FunctionSignatureSpecializationReturn,
    FunctionType,
    GenericPartialSpecialization,
    GenericPartialSpecializationNotReAbstracted,
    GenericProtocolWitnessTable,
    GenericProtocolWitnessTableInstantiationFunction,
    GenericSpecialization,
    GenericSpecializationInResilienceDomain,
    GenericSpecializationNotReAbstracted,
    GenericSpecializationParam,
    GenericSpecializationPrespecialized,
    GenericTypeMetadataPattern,
    Getter,
    Global,
    GlobalActorFunctionType,
    GlobalGetter,
    HasSymbolQuery,
    IVarDestroyer,
    IVarInitializer,
    Identifier,
    ImplConvention,
    ImplErrorResult,
    ImplEscaping,
    ImplFunctionConvention,
    ImplFunctionConventionName,
    ImplFunctionType,
    ImplInvocationSubstitutions,
    ImplParameter,
    ImplParameterSending,
    ImplPatternSubstitutions,
    ImplResult,
    ImplSendingResult,
    ImplicitClosure,
    InOut,
    Index,
    IndexSubset,
    InitAccessor,
    InlinedGenericFunction,
    Integer,
    Isolated,
    IsolatedAnyFunctionType,
    IsolatedDeallocator,
    KeyPathAppliedMethodThunkHelper,
    KeyPathEqualsThunkHelper,
    KeyPathGetterThunkHelper,
    KeyPathHashThunkHelper,
    KeyPathSetterThunkHelper,
    KeyPathUnappliedMethodThunkHelper,
    LabelList,
    LazyProtocolWitnessTableAccessor,
    LazyProtocolWitnessTableCacheVariable,
    LocalDeclName,
    Macro,
    MacroExpansionLoc,
    MacroExpansionUniqueName,
    MaterializeForSet,
    MemberAttachedMacroExpansion,
    MemberAttributeAttachedMacroExpansion,
    MergedFunction,
    Metaclass,
    MetadataInstantiationCache,
    Metatype,
    MetatypeRepresentation,
    MethodDescriptor,
    MethodLookupFunction,
    Modify2Accessor,
    ModifyAccessor,
    Module,
    ModuleDescriptor,
    NativeOwningAddressor,
    NativeOwningMutableAddressor,
    NativePinningAddressor,
    NativePinningMutableAddressor,
    NoDerivative,
    NoEscapeFunctionType,
    NominalTypeDescriptor,
    NominalTypeDescriptorRecord,
    NonIsolatedCallerFunctionType,
    NonObjCAttribute,
    NoncanonicalSpecializedGenericTypeMetadata,
    NoncanonicalSpecializedGenericTypeMetadataCache,
    Number,
    ObjCAttribute,
    ObjCBlock,
    ObjCMetadataUpdateFunction,
    OpaqueReturnType,
    OpaqueReturnTypeOf,
    OpaqueReturnTypeParent,
    OpaqueType,
    OpaqueTypeDescriptor,
    OpaqueTypeDescriptorAccessor,
    OpaqueTypeDescriptorAccessorImpl,
    OpaqueTypeDescriptorAccessorKey,
    OpaqueTypeDescriptorAccessorVar,
    OpaqueTypeDescriptorRecord,
    OtherNominalType,
    OutlinedAssignWithCopy,
    OutlinedAssignWithCopyNoValueWitness,
    OutlinedAssignWithTake,
    OutlinedAssignWithTakeNoValueWitness,
    OutlinedBridgedMethod,
    OutlinedConsume,
    OutlinedCopy,
    OutlinedDestroy,
    OutlinedDestroyNoValueWitness,
    OutlinedInitializeWithCopy,
    OutlinedInitializeWithCopyNoValueWitness,
    OutlinedInitializeWithTake,
    OutlinedInitializeWithTakeNoValueWitness,
    OutlinedReadOnlyObject,
    OutlinedRelease,
    OutlinedRetain,
    OutlinedVariable,
    Owned,
    OwningAddressor,
    OwningMutableAddressor,
    Pack,
    PartialApplyForwarder,
    PartialApplyObjCForwarder,
    PeerAttachedMacroExpansion,
    PreambleAttachedMacroExpansion,
    PrivateDeclName,
    PropertyDescriptor,
    PropertyWrapperBackingInitializer,
    Protocol,
    ProtocolConformance,
    ProtocolConformanceDescriptor,
    ProtocolConformanceDescriptorRecord,
    ProtocolDescriptor,
    ProtocolDescriptorRecord,
    ProtocolList,
    ProtocolListWithAnyObject,
    ProtocolListWithClass,
    ProtocolRequirementsBaseDescriptor,
    ProtocolSelfConformanceWitness,
    ProtocolSelfConformanceWitnessTable,
    ProtocolWitness,
    ProtocolWitnessTable,
    ProtocolWitnessTableAccessor,
    ProtocolWitnessTablePattern,
    ReabstractionThunk,
    ReabstractionThunkHelper,
    ReabstractionThunkHelperWithGlobalActor,
    ReabstractionThunkHelperWithSelf,
    Read2Accessor,
    ReadAccessor,
    ReflectionMetadataAssocTypeDescriptor,
    ResilientProtocolWitnessTable,
    ReturnType,
    SILBoxImmutableField,
    SILBoxLayout,
    SILBoxMutableField,
    SILBoxType,
    SILBoxTypeWithLayout,
    Sending,
    SendingResultFunctionType,
    Setter,
    Shared,
    SpecializationPassID,
    Static,
    Structure,
    Subscript,
    Suffix,
    SugaredArray,
    SugaredDictionary,
    SugaredOptional,
    ThinFunctionType,
    ThrowsAnnotation,
    Tuple,
    TupleElement,
    TupleElementName,
    Type,
    TypeAlias,
    TypeList,
    TypeMangling,
    TypeMetadata,
    TypeMetadataAccessFunction,
    TypeMetadataCompletionFunction,
    TypeMetadataDemanglingCache,
    TypeMetadataInstantiationCache,
    TypeMetadataInstantiationFunction,
    TypeMetadataLazyCache,
    TypeMetadataSingletonInitializationCache,
    TypedThrowsAnnotation,
    UncurriedFunctionType,
    Unowned,
    UnsafeAddressor,
    UnsafeMutableAddressor,
    VTableThunk,
    ValueWitness,
    ValueWitnessTable,
    Variable,
    VariadicMarker,
    Weak,
    WillSet,
}

} // verus!
